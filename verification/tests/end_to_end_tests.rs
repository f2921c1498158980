use njord::controller::{CurvePoint, PlugConfig, PlugHandler};
use njord::device::{Device, DeviceConfig, SerialInfo};
use njord::sensors::{SensorId, SensorType};

#[test]
fn configured_channel_ticks_and_writes_the_interpolated_value() {
    // A device with one channel whose current value is 0.
    let mut device =
        Device::new(SerialInfo { com_port: "COM7".to_string(), baud_rate: 115_200 });
    device.apply_device_config(DeviceConfig {
        ports: vec![1],
        default_values: vec![0],
        update_time: 500,
    });
    device.apply_plugs_values(vec![0]);

    // A channel bound to that device's index 0: curve (20,0)..(60,255), no
    // dead areas, no hysteresis.
    let config = PlugConfig {
        curve: vec![CurvePoint { temp: 20, value: 0 }, CurvePoint { temp: 60, value: 255 }],
        dead_areas: Vec::new(),
        cool_holder: None,
    };
    let sensor =
        SensorId { sensor_type: SensorType::SysInfoSensor, identifier: "coretemp".to_string() };
    let mut handler = PlugHandler::new(
        0,
        &device.plugs_values,
        device.device_config.update_time,
        sensor,
        config,
    )
    .unwrap();

    // One tick at 40 degrees: truncated interpolation gives 127.
    let write = handler.calculate_speed(40, 0);
    assert_eq!(write, Some(127));
    assert_eq!(handler.get_state().plug_value, 127);
    assert_eq!(handler.get_state().last_temp, 40);

    // The write goes out at the channel's index with exactly that value.
    let line = device.set_plug_value(handler.plug_externals.plug_index, write.unwrap()).unwrap();
    assert_eq!(line, "{\"command\":\"set_value\",\"data\":[0,127]}");
    assert_eq!(device.plugs_values, vec![127]);
}
