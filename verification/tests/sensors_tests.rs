use njord::sensors::{
    find_sensor, get_sensors_names_by_type, SensorFactory, SensorId, SensorType,
    SensorsProvidersStates, SysInfoSensor,
};

fn states(lhm: bool, nvml: bool) -> SensorsProvidersStates {
    SensorsProvidersStates { lhm_state: lhm, nvml_state: nvml }
}

#[test]
fn create_sensor_needs_the_backend() {
    let s = states(false, false);
    assert_eq!(
        SensorFactory::create_sensor(SensorType::LhmSensor, &s, "cpu".to_string()).err().unwrap(),
        "No lhm state"
    );
    assert_eq!(
        SensorFactory::create_sensor(SensorType::NvmlSensor, &s, "gpu".to_string()).err().unwrap(),
        "NVML not inited"
    );
    let id = SensorFactory::create_sensor(SensorType::SysInfoSensor, &s, "cpu".to_string())
        .unwrap();
    assert_eq!(id.sensor_type, SensorType::SysInfoSensor);
    assert_eq!(id.identifier, "cpu");
}

#[test]
fn create_sensor_uses_an_available_backend() {
    let s = states(true, true);
    let id = SensorFactory::create_sensor(SensorType::NvmlSensor, &s, "0000:01:00.0".to_string())
        .unwrap();
    assert_eq!(id.sensor_type, SensorType::NvmlSensor);
    assert_eq!(id.identifier, "0000:01:00.0");
}

#[test]
fn directory_holds_one_entry_per_enumerated_name() {
    let s = states(false, true);
    let directory = SensorFactory::get_all_sensors(
        &s,
        Some(vec!["gpu0".to_string(), "gpu1".to_string()]),
        Some(vec!["coretemp".to_string()]),
        None,
    );
    assert_eq!(directory.len(), 3);
    assert_eq!(directory[0].sensor_type, SensorType::NvmlSensor);
    assert_eq!(directory[0].identifier, "gpu0");
    assert_eq!(directory[1].identifier, "gpu1");
    assert_eq!(directory[2].sensor_type, SensorType::SysInfoSensor);
    assert_eq!(directory[2].identifier, "coretemp");
}

#[test]
fn unavailable_backend_contributes_nothing() {
    // Names were handed in, but the backend never came up: they are
    // dropped, not escalated.
    let s = states(false, false);
    let directory = SensorFactory::get_all_sensors(
        &s,
        Some(vec!["gpu0".to_string()]),
        None,
        Some(vec!["lhm0".to_string()]),
    );
    assert!(directory.is_empty());
}

#[test]
fn failed_enumeration_is_not_fatal() {
    let s = states(true, true);
    let directory = SensorFactory::get_all_sensors(&s, None, None, None);
    assert!(directory.is_empty());
}

#[test]
fn directory_lookup_matches_kind_and_identifier() {
    let s = states(false, true);
    let directory = SensorFactory::get_all_sensors(
        &s,
        Some(vec!["gpu0".to_string()]),
        Some(vec!["coretemp".to_string()]),
        None,
    );
    let present =
        SensorId { sensor_type: SensorType::SysInfoSensor, identifier: "coretemp".to_string() };
    let wrong_kind =
        SensorId { sensor_type: SensorType::NvmlSensor, identifier: "coretemp".to_string() };
    let absent =
        SensorId { sensor_type: SensorType::SysInfoSensor, identifier: "water".to_string() };
    assert!(find_sensor(&directory, &present));
    assert!(!find_sensor(&directory, &wrong_kind));
    assert!(!find_sensor(&directory, &absent));
}

#[test]
fn names_are_listed_per_backend() {
    let s = states(false, true);
    let directory = SensorFactory::get_all_sensors(
        &s,
        Some(vec!["gpu0".to_string(), "gpu1".to_string()]),
        Some(vec!["coretemp".to_string()]),
        None,
    );
    let nvml_names = get_sensors_names_by_type(&directory, SensorType::NvmlSensor);
    assert_eq!(nvml_names, vec!["gpu0".to_string(), "gpu1".to_string()]);
    let lhm_names = get_sensors_names_by_type(&directory, SensorType::LhmSensor);
    assert!(lhm_names.is_empty());
}

#[test]
fn sensor_ids_round_trip_through_backends() {
    let s = states(true, true);
    let sensor = SysInfoSensor::new(&s, "coretemp".to_string()).unwrap();
    let id = sensor.get_sensor_id();
    assert_eq!(id.sensor_type, SensorType::SysInfoSensor);
    assert_eq!(id.identifier, "coretemp");
    assert!(id.same_sensor(&SensorId {
        sensor_type: SensorType::SysInfoSensor,
        identifier: "coretemp".to_string()
    }));
}

#[test]
fn duplicated_enumerated_names_give_one_entry() {
    let s = states(false, true);
    let directory = SensorFactory::get_all_sensors(
        &s,
        Some(vec!["gpu0".to_string(), "gpu0".to_string(), "gpu1".to_string()]),
        Some(vec!["coretemp".to_string(), "coretemp".to_string()]),
        None,
    );
    assert_eq!(directory.len(), 3);
    assert_eq!(directory[0].identifier, "gpu0");
    assert_eq!(directory[1].identifier, "gpu1");
    assert_eq!(directory[2].identifier, "coretemp");
    // No two entries name the same sensor.
    for i in 0..directory.len() {
        for j in (i + 1)..directory.len() {
            assert!(
                directory[i].sensor_type != directory[j].sensor_type
                    || directory[i].identifier != directory[j].identifier
            );
        }
    }
}
