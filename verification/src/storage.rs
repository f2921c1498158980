//! The persisted configuration set: per device its serial endpoint and the
//! configured channels. Writing the document to disk and reading it back is
//! the caller's work; collecting it from the live channel slots is here.

use vstd::prelude::*;
use crate::controller::{PlugHandler, PlugConfig};
use crate::device::SerialInfo;
use crate::sensors::SensorId;

verus! {

/// One configured channel as persisted: its index, its sensor reference and
/// its configuration.
pub struct PlugHandlerStore {
    pub plug_index: u8,
    pub sensor_id: SensorId,
    pub plug_config: PlugConfig,
}

/// One device as persisted: its identifier, its serial endpoint and its
/// configured channels.
pub struct DeviceStore {
    pub device_id: String,
    pub serial_info: SerialInfo,
    pub plug_handlers: Vec<PlugHandlerStore>,
}

/// The whole persisted configuration set.
pub struct Storage {
    pub devices: Vec<DeviceStore>,
}

/// The handlers present in a device's channel slots, in slot order.
pub open spec fn spec_present_handlers(slots: Seq<Option<PlugHandler>>) -> Seq<PlugHandler>
    decreases slots.len(),
{
    if slots.len() == 0 {
        Seq::empty()
    } else {
        let front = spec_present_handlers(slots.drop_last());
        match slots.last() {
            Some(h) => front.push(h),
            None => front,
        }
    }
}

/// Whether a persisted channel record carries exactly one handler's index,
/// sensor and configuration.
pub open spec fn spec_store_matches(s: PlugHandlerStore, h: PlugHandler) -> bool {
    &&& s.plug_index == h.plug_externals.plug_index
    &&& s.sensor_id == h.plug_externals.sensor
    &&& s.plug_config.curve@ == h.plug_config.curve@
    &&& s.plug_config.dead_areas@ == h.plug_config.dead_areas@
    &&& s.plug_config.cool_holder == h.plug_config.cool_holder
}

/// Collects the persisted records of one device's channel slots: one record
/// per configured channel, absent slots skipped, slot order kept.
pub fn collect_plug_handlers(slots: &Vec<Option<PlugHandler>>) -> (r: Vec<PlugHandlerStore>)
    ensures
        r@.len() == spec_present_handlers(slots@).len(),
        forall|i: int|
            0 <= i < r@.len() ==> spec_store_matches(r@[i], spec_present_handlers(slots@)[i]),
{
    let ghost whole = slots@;
    let mut out: Vec<PlugHandlerStore> = Vec::new();
    let mut i: usize = 0;
    assert(whole.take(0) =~= Seq::<Option<PlugHandler>>::empty());
    while i < slots.len()
        invariant
            whole == slots@,
            i <= whole.len(),
            out@.len() == spec_present_handlers(whole.take(i as int)).len(),
            forall|j: int|
                0 <= j < out@.len() ==> spec_store_matches(
                    out@[j],
                    spec_present_handlers(whole.take(i as int))[j],
                ),
        decreases whole.len() - i,
    {
        let ghost prefix = whole.take(i as int + 1);
        assert(prefix.drop_last() =~= whole.take(i as int));
        assert(prefix.last() == whole[i as int]);
        match &slots[i] {
            Some(h) => {
                out.push(
                    PlugHandlerStore {
                        plug_index: h.plug_externals.plug_index,
                        sensor_id: h.plug_externals.sensor.clone(),
                        plug_config: h.plug_config.clone(),
                    },
                );
            },
            None => {},
        }
        i = i + 1;
    }
    assert(whole.take(whole.len() as int) =~= whole);
    out
}

} // verus!
