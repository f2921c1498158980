use njord::controller::{apply_dead_area, apply_dead_areas, DeadArea, DeadAreaVariant};

fn area(min_value: u8, max_value: u8, variant: DeadAreaVariant) -> DeadArea {
    DeadArea { min_value, max_value, variant }
}

#[test]
fn min_variant_snaps_down() {
    let a = area(10, 20, DeadAreaVariant::Min);
    assert_eq!(apply_dead_area(15, &a), 10);
    assert_eq!(apply_dead_area(19, &a), 10);
}

#[test]
fn max_variant_snaps_up() {
    let a = area(10, 20, DeadAreaVariant::Max);
    assert_eq!(apply_dead_area(11, &a), 20);
    assert_eq!(apply_dead_area(15, &a), 20);
}

#[test]
fn center_variant_snaps_to_nearest_bound() {
    let a = area(10, 20, DeadAreaVariant::Center);
    assert_eq!(apply_dead_area(11, &a), 10);
    assert_eq!(apply_dead_area(14, &a), 10);
    assert_eq!(apply_dead_area(16, &a), 20);
    assert_eq!(apply_dead_area(19, &a), 20);
}

#[test]
fn center_tie_resolves_toward_max() {
    let a = area(10, 20, DeadAreaVariant::Center);
    assert_eq!(apply_dead_area(15, &a), 20);
}

#[test]
fn values_at_bounds_pass_unchanged() {
    for variant in [DeadAreaVariant::Min, DeadAreaVariant::Max, DeadAreaVariant::Center] {
        let a = area(10, 20, variant);
        assert_eq!(apply_dead_area(10, &a), 10);
        assert_eq!(apply_dead_area(20, &a), 20);
    }
}

#[test]
fn values_outside_pass_unchanged() {
    for variant in [DeadAreaVariant::Min, DeadAreaVariant::Max, DeadAreaVariant::Center] {
        let a = area(10, 20, variant);
        assert_eq!(apply_dead_area(5, &a), 5);
        assert_eq!(apply_dead_area(25, &a), 25);
    }
}

#[test]
fn areas_apply_in_order_as_a_fold() {
    // The first area pushes 12 up to 20; the second then pulls 20 down to
    // 15. Evaluating both against the incoming value would give 20.
    let forward = vec![
        area(10, 20, DeadAreaVariant::Max),
        area(15, 30, DeadAreaVariant::Min),
    ];
    assert_eq!(apply_dead_areas(12, &forward), 15);

    // In the other order 12 is outside the second band, so only the first
    // area fires.
    let backward = vec![
        area(15, 30, DeadAreaVariant::Min),
        area(10, 20, DeadAreaVariant::Max),
    ];
    assert_eq!(apply_dead_areas(12, &backward), 20);
}

#[test]
fn no_areas_change_nothing() {
    assert_eq!(apply_dead_areas(123, &Vec::new()), 123);
}
