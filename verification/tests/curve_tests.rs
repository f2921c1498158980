use njord::controller::{curve_is_sorted, CurvePoint, PlugHandler};

fn curve(points: &[(i32, u8)]) -> Vec<CurvePoint> {
    points.iter().map(|&(temp, value)| CurvePoint { temp, value }).collect()
}

#[test]
fn empty_curve_yields_zero() {
    let c = curve(&[]);
    assert_eq!(PlugHandler::calculate_curve(&c, 40), 0);
}

#[test]
fn below_first_point_yields_first_value() {
    let c = curve(&[(20, 30), (60, 255)]);
    assert_eq!(PlugHandler::calculate_curve(&c, 10), 30);
    assert_eq!(PlugHandler::calculate_curve(&c, 20), 30);
    assert_eq!(PlugHandler::calculate_curve(&c, i32::MIN), 30);
}

#[test]
fn above_last_point_yields_last_value() {
    let c = curve(&[(20, 30), (60, 250)]);
    assert_eq!(PlugHandler::calculate_curve(&c, 90), 250);
    assert_eq!(PlugHandler::calculate_curve(&c, 60), 250);
    assert_eq!(PlugHandler::calculate_curve(&c, i32::MAX), 250);
}

#[test]
fn single_point_curve_is_constant() {
    let c = curve(&[(50, 128)]);
    assert_eq!(PlugHandler::calculate_curve(&c, 0), 128);
    assert_eq!(PlugHandler::calculate_curve(&c, 50), 128);
    assert_eq!(PlugHandler::calculate_curve(&c, 100), 128);
}

#[test]
fn midpoint_interpolates_with_truncation() {
    let c = curve(&[(20, 0), (60, 255)]);
    // (40 - 20) / (60 - 20) * 255 = 127.5, truncated.
    assert_eq!(PlugHandler::calculate_curve(&c, 40), 127);
}

#[test]
fn interpolation_truncates_not_rounds() {
    let c = curve(&[(0, 0), (3, 10)]);
    // 10/3 = 3.33.. and 20/3 = 6.66.., both truncated.
    assert_eq!(PlugHandler::calculate_curve(&c, 1), 3);
    assert_eq!(PlugHandler::calculate_curve(&c, 2), 6);
}

#[test]
fn descending_values_interpolate() {
    let c = curve(&[(0, 255), (10, 0)]);
    // 255 - 25.5 = 229.5, truncated.
    assert_eq!(PlugHandler::calculate_curve(&c, 1), 229);
    assert_eq!(PlugHandler::calculate_curve(&c, 9), 25);
}

#[test]
fn middle_bracket_is_used() {
    let c = curve(&[(0, 0), (10, 100), (20, 200), (30, 210)]);
    assert_eq!(PlugHandler::calculate_curve(&c, 15), 150);
    assert_eq!(PlugHandler::calculate_curve(&c, 10), 100);
    assert_eq!(PlugHandler::calculate_curve(&c, 25), 205);
}

#[test]
fn negative_temperatures_interpolate() {
    let c = curve(&[(-20, 0), (20, 200)]);
    assert_eq!(PlugHandler::calculate_curve(&c, 0), 100);
    assert_eq!(PlugHandler::calculate_curve(&c, -30), 0);
}

#[test]
fn sortedness_check_accepts_ascending_curves_only() {
    assert!(curve_is_sorted(&curve(&[])));
    assert!(curve_is_sorted(&curve(&[(10, 0)])));
    assert!(curve_is_sorted(&curve(&[(10, 0), (20, 50), (30, 100)])));
    // A duplicate temperature breaks strict ascent.
    assert!(!curve_is_sorted(&curve(&[(10, 0), (10, 50)])));
    assert!(!curve_is_sorted(&curve(&[(10, 0), (30, 50), (20, 100)])));
}
