use njord::controller::{CurvePoint, PlugConfig, PlugHandler};
use njord::messages::format_plug_state_text;
use njord::scheduler::{
    clean_and_resize_plug_handlers, install_plug_handler, plug_slot_is_configured, sweep_due,
    sweep_interval, update_plug_handler,
};
use njord::sensors::{SensorId, SensorType};
use njord::storage::collect_plug_handlers;

fn sensor(name: &str) -> SensorId {
    SensorId { sensor_type: SensorType::SysInfoSensor, identifier: name.to_string() }
}

fn config(points: &[(i32, u8)]) -> PlugConfig {
    PlugConfig {
        curve: points.iter().map(|&(temp, value)| CurvePoint { temp, value }).collect(),
        dead_areas: Vec::new(),
        cool_holder: None,
    }
}

fn handler(index: u8, update_time: u64) -> PlugHandler {
    let values = vec![0u8, 0u8, 0u8, 0u8];
    PlugHandler::new(index, &values, update_time, sensor("cpu"), config(&[(20, 0), (60, 255)]))
        .unwrap()
}

#[test]
fn resize_clears_every_slot() {
    let mut slots: Vec<Option<PlugHandler>> = Vec::new();
    slots.push(Some(handler(0, 500)));
    slots.push(None);
    clean_and_resize_plug_handlers(&mut slots, 4);
    assert_eq!(slots.len(), 4);
    assert!(slots.iter().all(|s| s.is_none()));
    clean_and_resize_plug_handlers(&mut slots, 0);
    assert!(slots.is_empty());
}

#[test]
fn interval_comes_from_the_first_configured_channel() {
    let mut slots: Vec<Option<PlugHandler>> = Vec::new();
    assert_eq!(sweep_interval(&slots, 250), 250);
    slots.push(None);
    slots.push(Some(handler(1, 900)));
    // The first slot is empty, so the previous interval stands, even though
    // a later slot is configured.
    assert_eq!(sweep_interval(&slots, 250), 250);
    slots[0] = Some(handler(0, 700));
    assert_eq!(sweep_interval(&slots, 250), 700);
}

#[test]
fn sweeps_fire_once_the_interval_elapsed() {
    assert!(sweep_due(500, 500));
    assert!(sweep_due(501, 500));
    assert!(!sweep_due(499, 500));
    assert!(sweep_due(0, 0));
}

#[test]
fn slots_are_checked_updated_and_installed() {
    let mut slots: Vec<Option<PlugHandler>> = Vec::new();
    clean_and_resize_plug_handlers(&mut slots, 2);
    assert_eq!(plug_slot_is_configured(&slots, 0).unwrap(), false);
    assert_eq!(plug_slot_is_configured(&slots, 2).err().unwrap(), "No such plug");

    install_plug_handler(&mut slots, 0, handler(0, 500)).unwrap();
    assert_eq!(plug_slot_is_configured(&slots, 0).unwrap(), true);

    // Reconfiguring keeps the runtime state and the binding.
    let new_config = config(&[(0, 10), (100, 200)]);
    update_plug_handler(&mut slots, 0, sensor("water"), new_config).unwrap();
    let updated = slots[0].as_ref().unwrap();
    assert_eq!(updated.plug_externals.sensor.identifier, "water");
    assert_eq!(updated.plug_externals.update_time, 500);
    assert_eq!(updated.plug_config.curve.len(), 2);
    assert_eq!(updated.plug_config.curve[0].value, 10);
}

#[test]
fn stored_records_skip_absent_slots_in_order() {
    let mut slots: Vec<Option<PlugHandler>> = Vec::new();
    clean_and_resize_plug_handlers(&mut slots, 4);
    install_plug_handler(&mut slots, 1, handler(1, 500)).unwrap();
    install_plug_handler(&mut slots, 3, handler(3, 500)).unwrap();
    let stored = collect_plug_handlers(&slots);
    assert_eq!(stored.len(), 2);
    assert_eq!(stored[0].plug_index, 1);
    assert_eq!(stored[1].plug_index, 3);
    assert_eq!(stored[0].sensor_id.identifier, "cpu");
    assert_eq!(stored[0].plug_config.curve.len(), 2);
}

#[test]
fn plug_state_texts() {
    let slots_entry = Some(njord::controller::PlugState { plug_value: 50, last_temp: -5 });
    assert_eq!(format_plug_state_text(0, &slots_entry), "Plug 1: -5\u{b0}C / 50%");
    assert_eq!(format_plug_state_text(2, &None), "Plug 3: Not configured");
}
