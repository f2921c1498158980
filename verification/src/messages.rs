//! Messages surfaced to the user: startup notices and the status texts
//! shown per device and per channel.

use vstd::prelude::*;
use crate::controller::PlugState;
use crate::device::DeviceState;
use crate::text::{spec_nat_digits, spec_int_digits, u64_to_string, i64_to_string};

verus! {

/// How severe a startup or runtime notice is.
#[derive(Clone, Copy, PartialEq, Eq, Structural, Debug)]
pub enum CoreMessageKind {
    Info,
    Warning,
    Error,
}

/// One notice to the user, such as a sensor backend that failed to come up.
pub struct CoreMessage {
    pub kind: CoreMessageKind,
    pub message: String,
}

impl Clone for CoreMessage {
    fn clone(&self) -> (r: Self)
        ensures
            r.kind == self.kind,
            r.message@ == self.message@,
    {
        CoreMessage { kind: self.kind, message: self.message.clone() }
    }
}

/// The status text for a device's health.
pub open spec fn spec_device_state_text(state: DeviceState) -> Seq<char> {
    match state {
        DeviceState::Healthy => "Status: OK"@,
        DeviceState::Error(e) => "Status: Error ("@ + e@ + ")"@,
    }
}

/// Renders a device's health as the status text a user sees.
pub fn format_device_state_text(state: &DeviceState) -> (r: String)
    ensures
        r@ == spec_device_state_text(*state),
{
    match state {
        DeviceState::Healthy => "Status: OK".to_owned(),
        DeviceState::Error(e) => {
            let mut s = String::from_str("Status: Error (");
            s.append(e.as_str());
            s.append(")");
            assert(s@ =~= "Status: Error ("@ + e@ + ")"@);
            s
        },
    }
}

/// The status text for one channel slot: its reading and duty when
/// configured, a placeholder when not. Channels are numbered from 1.
pub open spec fn spec_plug_state_text(index: int, state: Option<PlugState>) -> Seq<char> {
    match state {
        Some(st) => "Plug "@ + spec_nat_digits(index + 1) + ": "@ + spec_int_digits(
            st.last_temp as int,
        ) + "\u{b0}C / "@ + spec_nat_digits(st.plug_value as int) + "%"@,
        None => "Plug "@ + spec_nat_digits(index + 1) + ": Not configured"@,
    }
}

/// Renders one channel slot's status text.
pub fn format_plug_state_text(index: usize, state: &Option<PlugState>) -> (r: String)
    requires
        index < usize::MAX,
    ensures
        r@ == spec_plug_state_text(index as int, *state),
{
    let number = u64_to_string((index as u64) + 1);
    let mut s = String::from_str("Plug ");
    s.append(number.as_str());
    match state {
        Some(st) => {
            s.append(": ");
            let temp = i64_to_string(st.last_temp as i64);
            s.append(temp.as_str());
            s.append("\u{b0}C / ");
            let value = u64_to_string(st.plug_value as u64);
            s.append(value.as_str());
            s.append("%");
            assert(s@ =~= spec_plug_state_text(index as int, *state));
        },
        None => {
            s.append(": Not configured");
            assert(s@ =~= spec_plug_state_text(index as int, *state));
        },
    }
    s
}

} // verus!
