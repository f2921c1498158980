use njord::device::{
    device_config_json, read_ack, read_board_info, read_device_config, read_plugs_values,
    read_pong, DeviceConfig, DeviceError,
};

#[test]
fn err_code_surfaces_the_device_message() {
    let r = read_ack("{\"code\":\"err\",\"message\":\"bad index\"}");
    match r {
        Err(DeviceError::ProtocolError(m)) => assert_eq!(m, "bad index"),
        _ => panic!("expected a protocol error with the device's message"),
    }
}

#[test]
fn err_code_without_message_reports_unknown_error() {
    let r = read_ack("{\"code\":\"err\"}");
    match r {
        Err(DeviceError::ProtocolError(m)) => assert_eq!(m, "Unknown error"),
        _ => panic!("expected a protocol error"),
    }
}

#[test]
fn ok_code_without_data_is_empty_data_not_a_default() {
    let r = read_board_info("{\"code\":\"ok\"}");
    match r {
        Err(DeviceError::ProtocolError(m)) => assert_eq!(m, "Empty data"),
        _ => panic!("expected the empty-data failure"),
    }
}

#[test]
fn null_data_counts_as_absent() {
    let r = read_plugs_values("{\"code\":\"ok\",\"data\":null}");
    match r {
        Err(DeviceError::ProtocolError(m)) => assert_eq!(m, "Empty data"),
        _ => panic!("expected the empty-data failure"),
    }
}

#[test]
fn malformed_line_is_a_serialization_error() {
    let r = read_ack("this is not json");
    assert!(matches!(r, Err(DeviceError::SerializationError(_))));
}

#[test]
fn unknown_code_is_a_serialization_error() {
    let r = read_ack("{\"code\":\"maybe\"}");
    match r {
        Err(DeviceError::SerializationError(m)) => assert_eq!(m, "unrecognized response code"),
        _ => panic!("expected a serialization error"),
    }
}

#[test]
fn missing_code_is_a_serialization_error() {
    let r = read_ack("{\"message\":\"hi\"}");
    match r {
        Err(DeviceError::SerializationError(m)) => assert_eq!(m, "response has no code"),
        _ => panic!("expected a serialization error"),
    }
}

#[test]
fn ok_ack_passes() {
    assert!(read_ack("{\"code\":\"ok\"}").is_ok());
}

#[test]
fn pong_message_answers_true() {
    assert_eq!(read_pong("{\"code\":\"ok\",\"message\":\"pong\"}").unwrap(), true);
    assert_eq!(read_pong("{\"code\":\"ok\",\"message\":\"ping\"}").unwrap(), false);
    assert_eq!(read_pong("{\"code\":\"ok\"}").unwrap(), false);
}

#[test]
fn board_info_is_decoded() {
    let info = read_board_info(
        "{\"code\":\"ok\",\"data\":{\"board_name\":\"breeze\",\"max_ports\":4}}",
    )
    .unwrap();
    assert_eq!(info.board_name, "breeze");
    assert_eq!(info.max_ports, 4);
}

#[test]
fn plug_values_are_decoded() {
    let values =
        read_plugs_values("{\"code\":\"ok\",\"data\":{\"values\":[0,128,255]}}").unwrap();
    assert_eq!(values, vec![0u8, 128u8, 255u8]);
}

#[test]
fn out_of_range_value_is_rejected() {
    let r = read_plugs_values("{\"code\":\"ok\",\"data\":{\"values\":[300]}}");
    match r {
        Err(DeviceError::SerializationError(m)) => assert_eq!(m, "value out of range"),
        _ => panic!("expected a serialization error"),
    }
}

#[test]
fn device_config_is_decoded() {
    let config = read_device_config(
        "{\"code\":\"ok\",\"data\":{\"ports\":[1,2],\"default_values\":[50,60],\"update_time\":500}}",
    )
    .unwrap();
    assert_eq!(config.ports, vec![1u8, 2u8]);
    assert_eq!(config.default_values, vec![50u8, 60u8]);
    assert_eq!(config.update_time, 500);
}

#[test]
fn config_with_missing_field_is_rejected() {
    let r = read_device_config("{\"code\":\"ok\",\"data\":{\"ports\":[1,2]}}");
    assert!(matches!(r, Err(DeviceError::SerializationError(_))));
}

#[test]
fn config_json_round_trips_through_the_parser() {
    let config =
        DeviceConfig { ports: vec![1, 2], default_values: vec![50, 60], update_time: 500 };
    let payload = device_config_json(&config);
    let line = format!("{{\"code\":\"ok\",\"data\":{payload}}}");
    let parsed = read_device_config(&line).unwrap();
    assert_eq!(parsed.ports, config.ports);
    assert_eq!(parsed.default_values, config.default_values);
    assert_eq!(parsed.update_time, config.update_time);
}

#[test]
fn non_numeric_values_payload_is_rejected() {
    let r = read_plugs_values("{\"code\":\"ok\",\"data\":{\"values\":\"nope\"}}");
    assert!(matches!(r, Err(DeviceError::SerializationError(_))));
    let r = read_plugs_values("{\"code\":\"ok\",\"data\":{\"values\":[1,\"two\",3]}}");
    assert!(matches!(r, Err(DeviceError::SerializationError(_))));
}

#[test]
fn non_text_board_name_is_rejected() {
    let r = read_board_info("{\"code\":\"ok\",\"data\":{\"board_name\":7,\"max_ports\":4}}");
    assert!(matches!(r, Err(DeviceError::SerializationError(_))));
    let r = read_board_info("{\"code\":\"ok\",\"data\":{\"board_name\":\"b\",\"max_ports\":300}}");
    assert!(matches!(r, Err(DeviceError::SerializationError(_))));
}
