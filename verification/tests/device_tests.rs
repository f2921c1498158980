use njord::device::{
    board_info_request, get_config_request, get_default_config_request, get_values_request,
    load_default_config_request, ping_request, set_device_config_request, set_plugs_config_request,
    set_update_time_request, Device, DeviceConfig, DeviceError, DeviceState, SerialInfo,
};
use njord::messages::format_device_state_text;

fn endpoint() -> SerialInfo {
    SerialInfo { com_port: "COM3".to_string(), baud_rate: 115_200 }
}

fn configured_device() -> Device {
    let mut device = Device::new(endpoint());
    device.apply_device_config(DeviceConfig {
        ports: vec![1, 2, 3],
        default_values: vec![10, 20, 30],
        update_time: 500,
    });
    device.apply_plugs_values(vec![10, 20, 30]);
    device
}

#[test]
fn request_lines_match_the_wire_protocol() {
    assert_eq!(ping_request(), "{\"command\":\"ping\"}");
    assert_eq!(board_info_request(), "{\"command\":\"board_info\"}");
    assert_eq!(get_values_request(), "{\"command\":\"get_value\"}");
    assert_eq!(get_default_config_request(), "{\"command\":\"get_default_config\"}");
    assert_eq!(get_config_request(), "{\"command\":\"get_config\"}");
    assert_eq!(load_default_config_request(), "{\"command\":\"load_default_config\"}");
    assert_eq!(set_update_time_request(500), "{\"command\":\"set_update_time\",\"data\":[500]}");
    assert_eq!(
        set_plugs_config_request(&vec![1, 2, 3]),
        "{\"command\":\"ports_setup\",\"data\":[1,2,3]}"
    );
}

#[test]
fn set_config_request_escapes_the_embedded_json() {
    let config =
        DeviceConfig { ports: vec![1, 2], default_values: vec![50, 60], update_time: 500 };
    assert_eq!(
        set_device_config_request(&config),
        "{\"command\":\"set_config\",\"data\":[\"{\\\"ports\\\":[1,2],\\\"default_values\\\":[50,60],\\\"update_time\\\":500}\"]}"
    );
}

#[test]
fn set_plug_value_builds_the_request_and_updates_the_cache() {
    let mut device = configured_device();
    let line = device.set_plug_value(1, 127).unwrap();
    assert_eq!(line, "{\"command\":\"set_value\",\"data\":[1,127]}");
    assert_eq!(device.plugs_values, vec![10, 127, 30]);
}

#[test]
fn set_plug_value_rejects_an_out_of_range_index() {
    let mut device = configured_device();
    let r = device.set_plug_value(3, 127);
    match r {
        Err(DeviceError::ConfigurationError(m)) => assert_eq!(m, "Incorrect index"),
        _ => panic!("expected a configuration error"),
    }
    // Nothing was cached and nothing can be written.
    assert_eq!(device.plugs_values, vec![10, 20, 30]);
}

#[test]
fn set_default_value_checks_the_index() {
    let device = configured_device();
    let line = device.set_default_value(2, 99).unwrap();
    assert_eq!(line, "{\"command\":\"set_default_value\",\"data\":[2,99]}");
    let r = device.set_default_value(7, 99);
    match r {
        Err(DeviceError::ConfigurationError(m)) => assert_eq!(m, "Incorrect index"),
        _ => panic!("expected a configuration error"),
    }
}

#[test]
fn new_device_starts_disconnected_and_healthy() {
    let device = Device::new(endpoint());
    assert!(!device.connected);
    assert!(matches!(device.device_state, DeviceState::Healthy));
    assert!(device.plugs_values.is_empty());
    assert_eq!(device.device_config.update_time, 0);
}

#[test]
fn connection_errors_drop_the_handle_and_mark_the_device() {
    let mut device = Device::new(endpoint());
    device.note_opened();
    assert!(device.connected);
    assert!(!device.reopen_needs_backoff());
    device.note_connection_error("serial line went away".to_string());
    assert!(!device.connected);
    match &device.device_state {
        DeviceState::Error(m) => assert_eq!(m, "serial line went away"),
        _ => panic!("expected an error state"),
    }
    // A failed device waits before the next open attempt.
    assert!(device.reopen_needs_backoff());
    device.note_opened();
    assert!(matches!(device.device_state, DeviceState::Healthy));
}

#[test]
fn summary_carries_endpoint_identity_and_config() {
    let mut device = configured_device();
    device.apply_board_info(njord::device::DeviceInfo {
        board_name: "breeze".to_string(),
        max_ports: 3,
    });
    let summary = device.create_summary();
    assert_eq!(summary.serial_info.com_port, "COM3");
    assert_eq!(summary.serial_info.baud_rate, 115_200);
    assert_eq!(summary.device_info.board_name, "breeze");
    assert_eq!(summary.device_config.ports, vec![1, 2, 3]);
    assert_eq!(summary.device_config.update_time, 500);
}

#[test]
fn update_time_is_cached_after_the_ack() {
    let mut device = configured_device();
    device.apply_update_time(750);
    assert_eq!(device.device_config.update_time, 750);
    assert_eq!(device.device_config.ports, vec![1, 2, 3]);
}

#[test]
fn ports_setup_replaces_the_channel_list() {
    let mut device = configured_device();
    device.apply_plugs_config(&vec![5, 6]);
    assert_eq!(device.device_config.ports, vec![5, 6]);
    assert_eq!(device.device_config.default_values, vec![10, 20, 30]);
}

#[test]
fn device_state_texts() {
    assert_eq!(format_device_state_text(&DeviceState::Healthy), "Status: OK");
    assert_eq!(
        format_device_state_text(&DeviceState::Error("no pong".to_string())),
        "Status: Error (no pong)"
    );
}

#[test]
fn decimal_rendering_handles_extremes() {
    assert_eq!(set_update_time_request(0), "{\"command\":\"set_update_time\",\"data\":[0]}");
    assert_eq!(
        set_update_time_request(u64::MAX),
        "{\"command\":\"set_update_time\",\"data\":[18446744073709551615]}"
    );
}
