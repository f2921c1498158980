//! Decisions of the per-device polling loop and the channel-slot sequence
//! it sweeps. The loop itself performs device and sensor work and runs
//! outside this library; everything it decides is here.

use vstd::prelude::*;
use crate::controller::{PlugHandler, PlugConfig, PlugExternals, PlugState};
use crate::sensors::SensorId;

verus! {

/// Clears a device's channel slots and sizes them anew: afterwards there is
/// one slot per configured channel and every slot is absent.
pub fn clean_and_resize_plug_handlers(handlers: &mut Vec<Option<PlugHandler>>, new_size: usize)
    ensures
        final(handlers)@.len() == new_size,
        forall|i: int| 0 <= i < new_size ==> final(handlers)@[i] is None,
{
    let mut fresh: Vec<Option<PlugHandler>> = Vec::new();
    while fresh.len() < new_size
        invariant
            fresh@.len() <= new_size,
            forall|i: int| 0 <= i < fresh@.len() ==> fresh@[i] is None,
        decreases new_size - fresh@.len(),
    {
        fresh.push(None);
    }
    *handlers = fresh;
}

/// The interval the next sweep waits for: read fresh from the first
/// configured channel, since it is a device-wide property; without one, the
/// previous interval stands.
pub open spec fn spec_sweep_interval(handlers: Seq<Option<PlugHandler>>, previous: u64) -> u64 {
    if handlers.len() > 0 {
        match handlers[0] {
            Some(h) => h.plug_externals.update_time,
            None => previous,
        }
    } else {
        previous
    }
}

/// Reads the interval for the next sweep off the channel slots.
pub fn sweep_interval(handlers: &Vec<Option<PlugHandler>>, previous: u64) -> (r: u64)
    ensures
        r == spec_sweep_interval(handlers@, previous),
{
    if handlers.len() > 0 {
        match &handlers[0] {
            Some(h) => h.plug_externals.update_time,
            None => previous,
        }
    } else {
        previous
    }
}

/// Whether enough time has passed since the last sweep to start the next
/// one.
pub fn sweep_due(elapsed_ms: u64, interval_ms: u64) -> (r: bool)
    ensures
        r == (elapsed_ms >= interval_ms),
{
    elapsed_ms >= interval_ms
}

/// Whether a channel slot exists and already holds a handler. An index
/// beyond the slot sequence addresses no channel.
pub fn plug_slot_is_configured(handlers: &Vec<Option<PlugHandler>>, plug_index: u8) -> (r: Result<
    bool,
    String,
>)
    ensures
        plug_index < handlers@.len() ==> (r matches Ok(b) && b == (handlers@[plug_index as int]
            is Some)),
        plug_index >= handlers@.len() ==> (r matches Err(e) && e@ == "No such plug"@),
{
    if (plug_index as usize) < handlers.len() {
        match &handlers[plug_index as usize] {
            Some(_) => Ok(true),
            None => Ok(false),
        }
    } else {
        Err("No such plug".to_owned())
    }
}

/// Reconfigures the handler already sitting in one channel slot: it gets
/// the new configuration and sensor, its runtime state is kept, and every
/// other slot stands untouched.
pub fn update_plug_handler(
    handlers: &mut Vec<Option<PlugHandler>>,
    plug_index: u8,
    sensor: SensorId,
    plug_config: PlugConfig,
) -> (r: Result<(), String>)
    requires
        plug_index < old(handlers)@.len(),
        old(handlers)@[plug_index as int] is Some,
    ensures
        r is Ok,
        final(handlers)@.len() == old(handlers)@.len(),
        forall|i: int|
            0 <= i < old(handlers)@.len() && i != plug_index ==> final(handlers)@[i] == old(handlers)@[i],
        (old(handlers)@[plug_index as int] matches Some(prev) ==> (final(handlers)@[plug_index as int] matches Some(h) && {
            &&& h.plug_state == prev.plug_state
            &&& h.plug_externals.plug_index == prev.plug_externals.plug_index
            &&& h.plug_externals.update_time == prev.plug_externals.update_time
            &&& h.plug_externals.sensor == sensor
            &&& h.plug_config == plug_config
        })),
{
    let (state, index_kept, time_kept) = match &handlers[plug_index as usize] {
        Some(h) => (h.plug_state, h.plug_externals.plug_index, h.plug_externals.update_time),
        None => {
            proof {
                assert(false);
            }
            (PlugState { plug_value: 0, last_temp: 0 }, 0, 0)
        },
    };
    handlers.set(
        plug_index as usize,
        Some(
            PlugHandler {
                plug_state: state,
                plug_externals: PlugExternals {
                    plug_index: index_kept,
                    update_time: time_kept,
                    sensor,
                },
                plug_config,
            },
        ),
    );
    Ok(())
}

/// Puts a freshly built handler into one channel slot; every other slot
/// stands untouched.
pub fn install_plug_handler(
    handlers: &mut Vec<Option<PlugHandler>>,
    plug_index: u8,
    handler: PlugHandler,
) -> (r: Result<(), String>)
    ensures
        plug_index < old(handlers)@.len() ==> (r is Ok && final(handlers)@ == old(handlers)@.update(plug_index as int, Some(handler))),
        plug_index >= old(handlers)@.len() ==> (r matches Err(e) && e@ == "No such plug"@ && final(handlers)@ == old(handlers)@),
{
    if (plug_index as usize) < handlers.len() {
        handlers.set(plug_index as usize, Some(handler));
        Ok(())
    } else {
        Err("No such plug".to_owned())
    }
}

} // verus!
