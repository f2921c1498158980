//! The device link: the line-delimited request/response protocol spoken to
//! one microcontroller board, and the per-device state it maintains.
//!
//! Every request is one JSON line; every response is one JSON line with a
//! `code` of ok or err, an optional `message` and optional `data`. The
//! functions here build the exact request lines, decode response lines and
//! keep the device's cached configuration and values; moving those lines
//! over the serial port is the caller's work.

use vstd::prelude::*;
use crate::controller::PortValue;
use crate::text::{
    spec_nat_digits,
    spec_join_nums,
    spec_json_escape,
    u64_to_string,
    join_u8,
    json_escape,
};
use crate::json::{
    spec_json_line_ok,
    spec_json_string_field,
    spec_json_field_present,
    spec_json_nested_string_field,
    spec_json_nested_u64_field,
    spec_json_nested_list_len,
    spec_json_nested_list_u64_at,
    json_line_ok,
    json_string_field,
    json_field_present,
    json_nested_string_field,
    json_nested_u64_field,
    json_nested_list_len,
    json_nested_list_u64_at,
};

verus! {

/// One serial endpoint as shown to a user: name, transport kind and a
/// descriptive text.
pub struct PortInfo {
    pub name: String,
    pub port_type: String,
    pub device_data: String,
}

/// The payload of a get_value response: one duty value per channel.
pub struct GetPlugsResponse {
    pub values: Vec<PortValue>,
}

/// A board's configuration: its channel list, the default duty values and
/// the polling interval in milliseconds.
pub struct DeviceConfig {
    pub ports: Vec<u8>,
    pub default_values: Vec<PortValue>,
    pub update_time: u64,
}

impl Clone for DeviceConfig {
    fn clone(&self) -> (r: Self)
        ensures
            r.ports@ == self.ports@,
            r.default_values@ == self.default_values@,
            r.update_time == self.update_time,
    {
        DeviceConfig {
            ports: clone_u8_vec(&self.ports),
            default_values: clone_u8_vec(&self.default_values),
            update_time: self.update_time,
        }
    }
}

/// Copies a list of small numbers.
fn clone_u8_vec(v: &Vec<u8>) -> (r: Vec<u8>)
    ensures
        r@ == v@,
{
    let mut out: Vec<u8> = Vec::new();
    let mut i: usize = 0;
    while i < v.len()
        invariant
            i <= v@.len(),
            out@ == v@.take(i as int),
        decreases v@.len() - i,
    {
        out.push(v[i]);
        assert(out@ =~= v@.take(i as int + 1));
        i = i + 1;
    }
    assert(v@.take(v@.len() as int) =~= v@);
    out
}

/// The result code of a response line.
#[derive(Clone, Copy, PartialEq, Eq, Structural, Debug)]
pub enum DeviceCode {
    Okay,
    Error,
}

/// The typed envelope of one response line.
pub struct DeviceResponse<T> {
    pub code: DeviceCode,
    pub message: Option<String>,
    pub data: Option<T>,
}

/// What can go wrong talking to a device: a malformed payload, a transport
/// failure, a device-reported error or missing payload, or a rejected
/// configuration request.
#[derive(Debug)]
pub enum DeviceError {
    SerializationError(String),
    TransportError(String),
    ProtocolError(String),
    ConfigurationError(String),
}

impl DeviceError {
    /// The error's text.
    pub fn message(&self) -> (r: &str)
        ensures
            r@ == self.spec_message(),
    {
        match self {
            DeviceError::SerializationError(m) => m.as_str(),
            DeviceError::TransportError(m) => m.as_str(),
            DeviceError::ProtocolError(m) => m.as_str(),
            DeviceError::ConfigurationError(m) => m.as_str(),
        }
    }

    /// The error's text, for specifications.
    pub open spec fn spec_message(&self) -> Seq<char> {
        match self {
            DeviceError::SerializationError(m) => m@,
            DeviceError::TransportError(m) => m@,
            DeviceError::ProtocolError(m) => m@,
            DeviceError::ConfigurationError(m) => m@,
        }
    }
}

/// A board's identity: its name and how many channels it can drive.
pub struct DeviceInfo {
    pub board_name: String,
    pub max_ports: u8,
}

impl Clone for DeviceInfo {
    fn clone(&self) -> (r: Self)
        ensures
            r.board_name@ == self.board_name@,
            r.max_ports == self.max_ports,
    {
        DeviceInfo { board_name: self.board_name.clone(), max_ports: self.max_ports }
    }
}

/// A serial endpoint and the baud rate to open it with.
pub struct SerialInfo {
    pub com_port: String,
    pub baud_rate: u32,
}

impl Clone for SerialInfo {
    fn clone(&self) -> (r: Self)
        ensures
            r.com_port@ == self.com_port@,
            r.baud_rate == self.baud_rate,
    {
        SerialInfo { com_port: self.com_port.clone(), baud_rate: self.baud_rate }
    }
}

/// Everything a caller needs to show one device.
pub struct DeviceSummary {
    pub serial_info: SerialInfo,
    pub device_info: DeviceInfo,
    pub device_config: DeviceConfig,
}

/// A device's health: reachable, or failed with a reason. Kept per device
/// and queryable independently of any single call's outcome.
pub enum DeviceState {
    Healthy,
    Error(String),
}

impl Clone for DeviceState {
    fn clone(&self) -> (r: Self)
        ensures
            r is Healthy <==> *self is Healthy,
            r matches DeviceState::Error(m) ==> (*self matches DeviceState::Error(n) && m@ == n@),
    {
        match self {
            DeviceState::Healthy => DeviceState::Healthy,
            DeviceState::Error(m) => DeviceState::Error(m.clone()),
        }
    }
}

// ---------------------------------------------------------------------
// Request lines
// ---------------------------------------------------------------------

/// A request without data: {"command":"<cmd>"}.
pub open spec fn spec_request_no_data(cmd: Seq<char>) -> Seq<char> {
    "{\"command\":\""@ + cmd + "\"}"@
}

/// A request whose data is a list of numbers:
/// {"command":"<cmd>","data":[n,...]}.
pub open spec fn spec_request_nums(cmd: Seq<char>, nums: Seq<int>) -> Seq<char> {
    "{\"command\":\""@ + cmd + "\",\"data\":["@ + spec_join_nums(nums) + "]}"@
}

/// A request whose data is one string:
/// {"command":"<cmd>","data":["<payload, escaped>"]}.
pub open spec fn spec_request_str(cmd: Seq<char>, payload: Seq<char>) -> Seq<char> {
    "{\"command\":\""@ + cmd + "\",\"data\":[\""@ + spec_json_escape(payload) + "\"]}"@
}

/// The JSON text a board configuration is sent as.
pub open spec fn spec_config_json(ports: Seq<u8>, default_values: Seq<u8>, update_time: int) -> Seq<
    char,
> {
    "{\"ports\":["@ + spec_join_nums(ports.map_values(|x: u8| x as int)) + "],\"default_values\":["@
        + spec_join_nums(default_values.map_values(|x: u8| x as int)) + "],\"update_time\":"@
        + spec_nat_digits(update_time) + "}"@
}

/// Builds a request line without data.
fn request_no_data(cmd: &str) -> (r: String)
    ensures
        r@ == spec_request_no_data(cmd@),
{
    let mut s = String::from_str("{\"command\":\"");
    s.append(cmd);
    s.append("\"}");
    assert(s@ =~= spec_request_no_data(cmd@));
    s
}

/// Builds a request line whose data is a list of numbers.
fn request_nums(cmd: &str, nums: &Vec<u8>) -> (r: String)
    ensures
        r@ == spec_request_nums(cmd@, nums@.map_values(|x: u8| x as int)),
{
    let mut s = String::from_str("{\"command\":\"");
    s.append(cmd);
    s.append("\",\"data\":[");
    let joined = join_u8(nums);
    s.append(joined.as_str());
    s.append("]}");
    assert(s@ =~= spec_request_nums(cmd@, nums@.map_values(|x: u8| x as int)));
    s
}

/// Builds a request line whose data is one string.
fn request_str(cmd: &str, payload: &str) -> (r: String)
    ensures
        r@ == spec_request_str(cmd@, payload@),
{
    let mut s = String::from_str("{\"command\":\"");
    s.append(cmd);
    s.append("\",\"data\":[\"");
    let escaped = json_escape(payload);
    s.append(escaped.as_str());
    s.append("\"]}");
    assert(s@ =~= spec_request_str(cmd@, payload@));
    s
}

/// The ping request line.
pub fn ping_request() -> (r: String)
    ensures
        r@ == spec_request_no_data("ping"@),
{
    request_no_data("ping")
}

/// The board_info request line.
pub fn board_info_request() -> (r: String)
    ensures
        r@ == spec_request_no_data("board_info"@),
{
    request_no_data("board_info")
}

/// The get_value request line.
pub fn get_values_request() -> (r: String)
    ensures
        r@ == spec_request_no_data("get_value"@),
{
    request_no_data("get_value")
}

/// The get_default_config request line.
pub fn get_default_config_request() -> (r: String)
    ensures
        r@ == spec_request_no_data("get_default_config"@),
{
    request_no_data("get_default_config")
}

/// The get_config request line.
pub fn get_config_request() -> (r: String)
    ensures
        r@ == spec_request_no_data("get_config"@),
{
    request_no_data("get_config")
}

/// The load_default_config request line.
pub fn load_default_config_request() -> (r: String)
    ensures
        r@ == spec_request_no_data("load_default_config"@),
{
    request_no_data("load_default_config")
}

/// The set_update_time request line for one interval.
pub fn set_update_time_request(time: u64) -> (r: String)
    ensures
        r@ == "{\"command\":\"set_update_time\",\"data\":["@ + spec_nat_digits(time as int)
            + "]}"@,
{
    let mut s = String::from_str("{\"command\":\"set_update_time\",\"data\":[");
    let digits = u64_to_string(time);
    s.append(digits.as_str());
    s.append("]}");
    assert(s@ =~= "{\"command\":\"set_update_time\",\"data\":["@ + spec_nat_digits(time as int)
        + "]}"@);
    s
}

/// The JSON text of a board configuration, as embedded in set_config.
pub fn device_config_json(config: &DeviceConfig) -> (r: String)
    ensures
        r@ == spec_config_json(
            config.ports@,
            config.default_values@,
            config.update_time as int,
        ),
{
    let mut s = String::from_str("{\"ports\":[");
    let ports = join_u8(&config.ports);
    s.append(ports.as_str());
    s.append("],\"default_values\":[");
    let defaults = join_u8(&config.default_values);
    s.append(defaults.as_str());
    s.append("],\"update_time\":");
    let time = u64_to_string(config.update_time);
    s.append(time.as_str());
    s.append("}");
    assert(s@ =~= spec_config_json(
        config.ports@,
        config.default_values@,
        config.update_time as int,
    ));
    s
}

/// The set_config request line: the configuration's JSON text, itself
/// carried as one JSON string.
pub fn set_device_config_request(config: &DeviceConfig) -> (r: String)
    ensures
        r@ == spec_request_str(
            "set_config"@,
            spec_config_json(config.ports@, config.default_values@, config.update_time as int),
        ),
{
    let payload = device_config_json(config);
    request_str("set_config", payload.as_str())
}

/// The ports_setup request line for a raw channel list.
pub fn set_plugs_config_request(plugs: &Vec<u8>) -> (r: String)
    ensures
        r@ == spec_request_nums("ports_setup"@, plugs@.map_values(|x: u8| x as int)),
{
    request_nums("ports_setup", plugs)
}

// ---------------------------------------------------------------------
// Response lines
// ---------------------------------------------------------------------

/// Decodes a response's code field: "ok" or "err", anything else is a
/// malformed payload.
pub fn decode_code(code: &String) -> (r: Result<DeviceCode, DeviceError>)
    ensures
        code@ == "ok"@ ==> r == Ok::<DeviceCode, DeviceError>(DeviceCode::Okay),
        code@ == "err"@ ==> r == Ok::<DeviceCode, DeviceError>(DeviceCode::Error),
        code@ != "ok"@ && code@ != "err"@ ==> (r matches Err(e) && e matches
            DeviceError::SerializationError(m) && m@ == "unrecognized response code"@),
{
    proof {
        reveal_strlit("ok");
        reveal_strlit("err");
        assert("ok"@.len() == 2);
        assert("err"@.len() == 3);
    }
    let ok_text = String::from_str("ok");
    let err_text = String::from_str("err");
    if *code == ok_text {
        Ok(DeviceCode::Okay)
    } else if *code == err_text {
        Ok(DeviceCode::Error)
    } else {
        Err(DeviceError::SerializationError("unrecognized response code".to_owned()))
    }
}

/// What a response line means, stated over the named JSON projections of
/// the line: a line that does not parse, or whose code is neither ok nor
/// err, is malformed.
pub open spec fn spec_line_malformed(line: Seq<char>) -> bool {
    !spec_json_line_ok(line) || match spec_json_string_field(line, "code"@) {
        Some(c) => c != "ok"@ && c != "err"@,
        None => true,
    }
}

/// A well-formed response line whose device reported failure.
pub open spec fn spec_line_err(line: Seq<char>) -> bool {
    spec_json_line_ok(line) && spec_json_string_field(line, "code"@) == Some("err"@)
}

/// A well-formed response line whose device reported success.
pub open spec fn spec_line_ok(line: Seq<char>) -> bool {
    spec_json_line_ok(line) && spec_json_string_field(line, "code"@) == Some("ok"@)
}

/// The message an err line surfaces: the device's own text, or a fixed
/// default when the device sent none.
pub open spec fn spec_device_message(line: Seq<char>) -> Seq<char> {
    match spec_json_string_field(line, "message"@) {
        Some(m) => m,
        None => "Unknown error"@,
    }
}

/// Whether a response line carries data (a data field that is not null).
pub open spec fn spec_line_has_data(line: Seq<char>) -> bool {
    spec_json_field_present(line, "data"@)
}

/// A response line falls in exactly one case: malformed, a failure the
/// device reported, or a success the device reported.
proof fn lemma_line_verdicts(line: Seq<char>)
    ensures
        !(spec_line_ok(line) && spec_line_err(line)),
        spec_line_ok(line) ==> !spec_line_malformed(line),
        spec_line_err(line) ==> !spec_line_malformed(line),
        !spec_line_malformed(line) ==> spec_line_ok(line) || spec_line_err(line),
{
    reveal_strlit("ok");
    reveal_strlit("err");
    assert("ok"@.len() == 2);
    assert("err"@.len() == 3);
}

/// Parses one response line into the typed envelope; the data field is
/// reduced to its presence, since payloads are read off the line by field.
/// A malformed line is a serialization failure, never a device verdict.
pub fn parse_device_response(line: &str) -> (r: Result<DeviceResponse<()>, DeviceError>)
    ensures
        spec_line_malformed(line@) ==> (r matches Err(e) && e is SerializationError),
        spec_line_ok(line@) || spec_line_err(line@) ==> (r matches Ok(resp) && {
            &&& resp.code is Okay <==> spec_line_ok(line@)
            &&& match resp.message {
                Some(m) => spec_json_string_field(line@, "message"@) == Some(m@),
                None => spec_json_string_field(line@, "message"@) is None,
            }
            &&& resp.data is Some <==> spec_line_has_data(line@)
        }),
{
    proof {
        reveal_strlit("ok");
        reveal_strlit("err");
        assert("ok"@.len() == 2);
        assert("err"@.len() == 3);
    }
    if let Err(e) = json_line_ok(line) {
        return Err(DeviceError::SerializationError(e));
    }
    let code_text = match json_string_field(line, "code") {
        Some(c) => c,
        None => {
            return Err(DeviceError::SerializationError("response has no code".to_owned()));
        },
    };
    let code = match decode_code(&code_text) {
        Ok(c) => c,
        Err(e) => {
            return Err(e);
        },
    };
    let message = json_string_field(line, "message");
    let data = if json_field_present(line, "data") {
        Some(())
    } else {
        None
    };
    Ok(DeviceResponse { code, message, data })
}

/// The device's verdict on a request: an ok response passes through
/// unchanged; an err response becomes a protocol error carrying the
/// device's message, or "Unknown error" when the device sent none.
pub fn check_response<T>(resp: DeviceResponse<T>) -> (r: Result<DeviceResponse<T>, DeviceError>)
    ensures
        resp.code is Okay ==> (r matches Ok(out) && out == resp),
        resp.code is Error ==> (r matches Err(e) && e matches DeviceError::ProtocolError(m) && m@
            == (match resp.message {
            Some(text) => text@,
            None => "Unknown error"@,
        })),
{
    match resp.code {
        DeviceCode::Okay => Ok(resp),
        DeviceCode::Error => Err(
            DeviceError::ProtocolError(
                match resp.message {
                    Some(text) => text,
                    None => "Unknown error".to_owned(),
                },
            ),
        ),
    }
}

/// An ok response that should carry data but does not is the failure
/// "Empty data", never a default value.
pub fn require_data<T>(resp: DeviceResponse<T>) -> (r: Result<T, DeviceError>)
    ensures
        resp.data matches Some(d) ==> (r matches Ok(out) && out == d),
        resp.data is None ==> (r matches Err(e) && e matches DeviceError::ProtocolError(m) && m@
            == "Empty data"@),
{
    match resp.data {
        Some(d) => Ok(d),
        None => Err(DeviceError::ProtocolError("Empty data".to_owned())),
    }
}

/// Whether a ping response's message is the expected pong.
pub fn interpret_pong(message: Option<&String>) -> (r: bool)
    ensures
        r == (message matches Some(m) && m@ == "pong"@),
{
    match message {
        Some(m) => {
            let pong = String::from_str("pong");
            *m == pong
        },
        None => false,
    }
}

/// Elements of an array field that fit one duty byte: present, integral,
/// within one byte.
pub open spec fn spec_u8_list_at_ok(
    line: Seq<char>,
    outer: Seq<char>,
    key: Seq<char>,
    i: int,
) -> bool {
    match spec_json_nested_list_u64_at(line, outer, key, i) {
        Some(v) => 0 <= v <= 255,
        None => false,
    }
}

/// Whether an array field decodes as a list of duty bytes.
pub open spec fn spec_u8_list_ok(line: Seq<char>, outer: Seq<char>, key: Seq<char>) -> bool {
    match spec_json_nested_list_len(line, outer, key) {
        Some(n) => forall|i: int| 0 <= i < n ==> spec_u8_list_at_ok(line, outer, key, i),
        None => false,
    }
}

/// Whether a decoded list carries exactly the array field's numbers, order
/// and length preserved.
pub open spec fn spec_u8_list_matches(
    line: Seq<char>,
    outer: Seq<char>,
    key: Seq<char>,
    list: Seq<u8>,
) -> bool {
    &&& spec_json_nested_list_len(line, outer, key) == Some(list.len() as int)
    &&& forall|i: int|
        0 <= i < list.len() ==> spec_json_nested_list_u64_at(line, outer, key, i) == Some(
            list[i] as int,
        )
}

/// Decodes one array field as duty bytes: exactly the payload's numbers in
/// payload order, or a serialization failure when any element is missing,
/// fractional, negative or over one byte.
fn read_u8_list(line: &str, outer: &str, key: &str) -> (r: Result<Vec<u8>, DeviceError>)
    ensures
        spec_u8_list_ok(line@, outer@, key@) ==> (r matches Ok(list) && spec_u8_list_matches(
            line@,
            outer@,
            key@,
            list@,
        )),
        !spec_u8_list_ok(line@, outer@, key@) ==> (r matches Err(e) && e is SerializationError),
{
    let n = match json_nested_list_len(line, outer, key) {
        Some(n) => n,
        None => {
            return Err(DeviceError::SerializationError("expected a list of numbers".to_owned()));
        },
    };
    let mut out: Vec<u8> = Vec::new();
    let mut i: usize = 0;
    while i < n
        invariant
            i <= n,
            spec_json_nested_list_len(line@, outer@, key@) == Some(n as int),
            out@.len() == i,
            forall|j: int|
                0 <= j < i ==> spec_json_nested_list_u64_at(line@, outer@, key@, j) == Some(
                    out@[j] as int,
                ),
            forall|j: int| 0 <= j < i ==> spec_u8_list_at_ok(line@, outer@, key@, j),
        decreases n - i,
    {
        let v = match json_nested_list_u64_at(line, outer, key, i) {
            Some(v) => v,
            None => {
                assert(!spec_u8_list_at_ok(line@, outer@, key@, i as int));
                return Err(
                    DeviceError::SerializationError("expected a list of numbers".to_owned()),
                );
            },
        };
        if v > 255 {
            assert(!spec_u8_list_at_ok(line@, outer@, key@, i as int));
            return Err(DeviceError::SerializationError("value out of range".to_owned()));
        }
        out.push(v as u8);
        i = i + 1;
    }
    Ok(out)
}

/// Decodes a response line that should acknowledge a request: the device's
/// verdict alone counts; any data is ignored.
pub fn read_ack(line: &str) -> (r: Result<(), DeviceError>)
    ensures
        spec_line_malformed(line@) ==> (r matches Err(e) && e is SerializationError),
        spec_line_err(line@) ==> (r matches Err(e) && e matches DeviceError::ProtocolError(m) && m@
            == spec_device_message(line@)),
        spec_line_ok(line@) ==> r is Ok,
{
    proof {
        lemma_line_verdicts(line@);
    }
    let resp = match parse_device_response(line) {
        Ok(resp) => resp,
        Err(e) => {
            return Err(e);
        },
    };
    match check_response(resp) {
        Ok(_) => Ok(()),
        Err(e) => Err(e),
    }
}

/// Decodes a ping response line: true exactly when the device answered
/// pong.
pub fn read_pong(line: &str) -> (r: Result<bool, DeviceError>)
    ensures
        spec_line_malformed(line@) ==> (r matches Err(e) && e is SerializationError),
        spec_line_err(line@) ==> (r matches Err(e) && e matches DeviceError::ProtocolError(m) && m@
            == spec_device_message(line@)),
        spec_line_ok(line@) ==> (r matches Ok(b) && b == (spec_json_string_field(
            line@,
            "message"@,
        ) == Some("pong"@))),
{
    proof {
        reveal_strlit("pong");
    }
    proof {
        lemma_line_verdicts(line@);
    }
    let resp = match parse_device_response(line) {
        Ok(resp) => resp,
        Err(e) => {
            return Err(e);
        },
    };
    let resp = match check_response(resp) {
        Ok(resp) => resp,
        Err(e) => {
            return Err(e);
        },
    };
    Ok(interpret_pong(resp.message.as_ref()))
}

/// Decodes a board_info response line: the board's name and channel count,
/// exactly as the payload gives them; a payload without them, or with a
/// channel count over one byte, is a serialization failure.
pub fn read_board_info(line: &str) -> (r: Result<DeviceInfo, DeviceError>)
    ensures
        spec_line_malformed(line@) ==> (r matches Err(e) && e is SerializationError),
        spec_line_err(line@) ==> (r matches Err(e) && e matches DeviceError::ProtocolError(m) && m@
            == spec_device_message(line@)),
        spec_line_ok(line@) && !spec_line_has_data(line@) ==> (r matches Err(e) && e matches
            DeviceError::ProtocolError(m) && m@ == "Empty data"@),
        spec_line_ok(line@) && spec_line_has_data(line@) ==> (match (
            spec_json_nested_string_field(line@, "data"@, "board_name"@),
            spec_json_nested_u64_field(line@, "data"@, "max_ports"@),
        ) {
            (Some(name), Some(p)) => {
                if p <= 255 {
                    r matches Ok(info) && info.board_name@ == name && info.max_ports == p
                } else {
                    r matches Err(e) && e is SerializationError
                }
            },
            _ => (r matches Err(e) && e is SerializationError),
        }),
{
    proof {
        lemma_line_verdicts(line@);
    }
    let resp = match parse_device_response(line) {
        Ok(resp) => resp,
        Err(e) => {
            return Err(e);
        },
    };
    let resp = match check_response(resp) {
        Ok(resp) => resp,
        Err(e) => {
            return Err(e);
        },
    };
    match require_data(resp) {
        Ok(_) => (),
        Err(e) => {
            return Err(e);
        },
    }
    let board_name = match json_nested_string_field(line, "data", "board_name") {
        Some(s) => s,
        None => {
            return Err(DeviceError::SerializationError("board info has no name".to_owned()));
        },
    };
    let max_ports = match json_nested_u64_field(line, "data", "max_ports") {
        Some(n) => n,
        None => {
            return Err(DeviceError::SerializationError("board info has no port count".to_owned()));
        },
    };
    if max_ports > 255 {
        return Err(DeviceError::SerializationError("port count out of range".to_owned()));
    }
    Ok(DeviceInfo { board_name, max_ports: max_ports as u8 })
}

/// Decodes a get_value response line: exactly the payload's values list,
/// order and length preserved.
pub fn read_plugs_values(line: &str) -> (r: Result<Vec<PortValue>, DeviceError>)
    ensures
        spec_line_malformed(line@) ==> (r matches Err(e) && e is SerializationError),
        spec_line_err(line@) ==> (r matches Err(e) && e matches DeviceError::ProtocolError(m) && m@
            == spec_device_message(line@)),
        spec_line_ok(line@) && !spec_line_has_data(line@) ==> (r matches Err(e) && e matches
            DeviceError::ProtocolError(m) && m@ == "Empty data"@),
        spec_line_ok(line@) && spec_line_has_data(line@) ==> (
        if spec_u8_list_ok(line@, "data"@, "values"@) {
            r matches Ok(values) && spec_u8_list_matches(line@, "data"@, "values"@, values@)
        } else {
            r matches Err(e) && e is SerializationError
        }),
{
    proof {
        lemma_line_verdicts(line@);
    }
    let resp = match parse_device_response(line) {
        Ok(resp) => resp,
        Err(e) => {
            return Err(e);
        },
    };
    let resp = match check_response(resp) {
        Ok(resp) => resp,
        Err(e) => {
            return Err(e);
        },
    };
    match require_data(resp) {
        Ok(_) => (),
        Err(e) => {
            return Err(e);
        },
    }
    let values = match read_u8_list(line, "data", "values") {
        Ok(list) => list,
        Err(e) => {
            return Err(e);
        },
    };
    let response = GetPlugsResponse { values };
    Ok(response.values)
}

/// Decodes a get_config or get_default_config response line: exactly the
/// payload's channel list, default values and interval.
pub fn read_device_config(line: &str) -> (r: Result<DeviceConfig, DeviceError>)
    ensures
        spec_line_malformed(line@) ==> (r matches Err(e) && e is SerializationError),
        spec_line_err(line@) ==> (r matches Err(e) && e matches DeviceError::ProtocolError(m) && m@
            == spec_device_message(line@)),
        spec_line_ok(line@) && !spec_line_has_data(line@) ==> (r matches Err(e) && e matches
            DeviceError::ProtocolError(m) && m@ == "Empty data"@),
        spec_line_ok(line@) && spec_line_has_data(line@) ==> (
        if spec_u8_list_ok(line@, "data"@, "ports"@) && spec_u8_list_ok(
            line@,
            "data"@,
            "default_values"@,
        ) && spec_json_nested_u64_field(line@, "data"@, "update_time"@) is Some {
            r matches Ok(c) && spec_u8_list_matches(line@, "data"@, "ports"@, c.ports@)
                && spec_u8_list_matches(line@, "data"@, "default_values"@, c.default_values@)
                && spec_json_nested_u64_field(line@, "data"@, "update_time"@) == Some(
                c.update_time as int,
            )
        } else {
            r matches Err(e) && e is SerializationError
        }),
{
    proof {
        lemma_line_verdicts(line@);
    }
    let resp = match parse_device_response(line) {
        Ok(resp) => resp,
        Err(e) => {
            return Err(e);
        },
    };
    let resp = match check_response(resp) {
        Ok(resp) => resp,
        Err(e) => {
            return Err(e);
        },
    };
    match require_data(resp) {
        Ok(_) => (),
        Err(e) => {
            return Err(e);
        },
    }
    let ports = match read_u8_list(line, "data", "ports") {
        Ok(list) => list,
        Err(e) => {
            return Err(e);
        },
    };
    let default_values = match read_u8_list(line, "data", "default_values") {
        Ok(list) => list,
        Err(e) => {
            return Err(e);
        },
    };
    let update_time = match json_nested_u64_field(line, "data", "update_time") {
        Some(n) => n,
        None => {
            return Err(DeviceError::SerializationError("config has no update time".to_owned()));
        },
    };
    Ok(DeviceConfig { ports, default_values, update_time })
}

// ---------------------------------------------------------------------
// Serial endpoint listing
// ---------------------------------------------------------------------

/// A serial endpoint as the platform reports it: the transport kind and,
/// for USB, the optional product and manufacturer names.
pub enum RawPortType {
    Usb { product: Option<String>, manufacturer: Option<String> },
    Bluetooth,
    Pci,
    Unknown,
}

/// The descriptive text of a USB endpoint: product and manufacturer, either
/// possibly absent, with a space between.
pub open spec fn spec_usb_description(
    product: Option<String>,
    manufacturer: Option<String>,
) -> Seq<char> {
    (match product {
        Some(p) => p@,
        None => Seq::empty(),
    }) + " "@ + (match manufacturer {
        Some(m) => m@,
        None => Seq::empty(),
    })
}

/// Whether a port entry describes an endpoint faithfully: kind rendered as
/// its name, the USB description built from product and manufacturer.
pub open spec fn spec_port_info_matches(p: PortInfo, name: String, t: RawPortType) -> bool {
    &&& p.name == name
    &&& match t {
        RawPortType::Usb { product, manufacturer } => p.port_type@ == "USB"@ && p.device_data@
            == spec_usb_description(product, manufacturer),
        RawPortType::Bluetooth => p.port_type@ == "Bluetooth"@ && p.device_data@ == Seq::<
            char,
        >::empty(),
        RawPortType::Pci => p.port_type@ == "Pci"@ && p.device_data@ == Seq::<char>::empty(),
        RawPortType::Unknown => p.port_type@ == "Unknown"@ && p.device_data@ == Seq::<
            char,
        >::empty(),
    }
}

/// Turns one reported endpoint into the entry a caller is shown.
pub fn describe_port(name: String, port_type: RawPortType) -> (p: PortInfo)
    ensures
        spec_port_info_matches(p, name, port_type),
{
    match port_type {
        RawPortType::Usb { product, manufacturer } => {
            let mut info = String::new();
            match &product {
                Some(data) => info.append(data.as_str()),
                None => (),
            }
            info.append(" ");
            match &manufacturer {
                Some(data) => info.append(data.as_str()),
                None => (),
            }
            assert(info@ =~= spec_usb_description(product, manufacturer));
            PortInfo { name, port_type: "USB".to_owned(), device_data: info }
        },
        RawPortType::Bluetooth => PortInfo {
            name,
            port_type: "Bluetooth".to_owned(),
            device_data: String::new(),
        },
        RawPortType::Pci => PortInfo {
            name,
            port_type: "Pci".to_owned(),
            device_data: String::new(),
        },
        RawPortType::Unknown => PortInfo {
            name,
            port_type: "Unknown".to_owned(),
            device_data: String::new(),
        },
    }
}

/// Turns the platform's endpoint report into the list a caller is shown,
/// in the reported order.
pub fn get_device_list(ports: Vec<(String, RawPortType)>) -> (r: Vec<PortInfo>)
    ensures
        r@.len() == ports@.len(),
        forall|i: int|
            0 <= i < ports@.len() ==> spec_port_info_matches(r@[i], ports@[i].0, ports@[i].1),
{
    let ghost entries = ports@;
    let mut out: Vec<PortInfo> = Vec::new();
    let mut remaining = ports;
    while remaining.len() > 0
        invariant
            out@.len() + remaining@.len() == entries.len(),
            forall|j: int|
                0 <= j < remaining@.len() ==> remaining@[j] == entries[out@.len() + j],
            forall|j: int|
                0 <= j < out@.len() ==> spec_port_info_matches(out@[j], entries[j].0, entries[j].1),
        decreases remaining@.len(),
    {
        let (name, port_type) = remaining.remove(0);
        out.push(describe_port(name, port_type));
    }
    out
}

// ---------------------------------------------------------------------
// The device itself
// ---------------------------------------------------------------------

/// One board: whether its serial connection is currently open, the endpoint
/// it lives on, its identity, the cached per-channel values, its cached
/// configuration and its health. A device persists through connection
/// failures: its health turns to an error and the connection is reopened on
/// the next use.
pub struct Device {
    pub connected: bool,
    pub serial_info: SerialInfo,
    pub device_info: DeviceInfo,
    pub plugs_values: Vec<PortValue>,
    pub device_config: DeviceConfig,
    pub device_state: DeviceState,
}

impl Device {
    /// A fresh device record for one serial endpoint: no connection yet,
    /// nothing cached, health good.
    pub fn new(serial_info: SerialInfo) -> (d: Device)
        ensures
            !d.connected,
            d.serial_info == serial_info,
            d.device_info.board_name@ == Seq::<char>::empty(),
            d.device_info.max_ports == 0,
            d.plugs_values@ == Seq::<PortValue>::empty(),
            d.device_config.ports@ == Seq::<u8>::empty(),
            d.device_config.default_values@ == Seq::<u8>::empty(),
            d.device_config.update_time == 0,
            d.device_state is Healthy,
    {
        Device {
            connected: false,
            serial_info,
            device_info: DeviceInfo { board_name: String::new(), max_ports: 0 },
            plugs_values: Vec::new(),
            device_config: DeviceConfig {
                ports: Vec::new(),
                default_values: Vec::new(),
                update_time: 0,
            },
            device_state: DeviceState::Healthy,
        }
    }

    /// What a caller is shown of this device.
    pub fn create_summary(&self) -> (s: DeviceSummary)
        ensures
            s.serial_info.com_port@ == self.serial_info.com_port@,
            s.serial_info.baud_rate == self.serial_info.baud_rate,
            s.device_info.board_name@ == self.device_info.board_name@,
            s.device_info.max_ports == self.device_info.max_ports,
            s.device_config.ports@ == self.device_config.ports@,
            s.device_config.default_values@ == self.device_config.default_values@,
            s.device_config.update_time == self.device_config.update_time,
    {
        DeviceSummary {
            serial_info: self.serial_info.clone(),
            device_info: self.device_info.clone(),
            device_config: self.device_config.clone(),
        }
    }

    /// Whether reopening the connection should wait a short backoff first:
    /// only after a failure, never against a device believed healthy.
    pub fn reopen_needs_backoff(&self) -> (b: bool)
        ensures
            b == (self.device_state is Error),
    {
        match self.device_state {
            DeviceState::Error(_) => true,
            DeviceState::Healthy => false,
        }
    }

    /// Records that the serial connection was opened: any call may go
    /// through now, and health is good again.
    pub fn note_opened(&mut self)
        ensures
            final(self).connected,
            final(self).device_state is Healthy,
            final(self).serial_info == old(self).serial_info,
            final(self).device_info == old(self).device_info,
            final(self).plugs_values == old(self).plugs_values,
            final(self).device_config == old(self).device_config,
    {
        self.connected = true;
        self.device_state = DeviceState::Healthy;
    }

    /// Records a transport failure: the connection handle is dropped, so
    /// the next use reopens it, and health carries the reason.
    pub fn note_connection_error(&mut self, reason: String)
        ensures
            !final(self).connected,
            final(self).device_state == DeviceState::Error(reason),
            final(self).serial_info == old(self).serial_info,
            final(self).device_info == old(self).device_info,
            final(self).plugs_values == old(self).plugs_values,
            final(self).device_config == old(self).device_config,
    {
        self.connected = false;
        self.device_state = DeviceState::Error(reason);
    }

    /// Records an acknowledged set_update_time: the cached interval is
    /// updated, nothing else moves.
    pub fn apply_update_time(&mut self, time: u64)
        ensures
            final(self).device_config.update_time == time,
            final(self).device_config.ports == old(self).device_config.ports,
            final(self).device_config.default_values == old(self).device_config.default_values,
            final(self).connected == old(self).connected,
            final(self).serial_info == old(self).serial_info,
            final(self).device_info == old(self).device_info,
            final(self).plugs_values == old(self).plugs_values,
            final(self).device_state == old(self).device_state,
    {
        self.device_config.update_time = time;
    }

    /// The set_default_value request for one channel, or a configuration
    /// error when the index does not address a configured channel. No
    /// request line exists in the error case, so nothing can be written.
    pub fn set_default_value(&self, index: u8, value: PortValue) -> (r: Result<
        String,
        DeviceError,
    >)
        ensures
            index < self.device_config.ports@.len() ==> (r matches Ok(line) && line@
                == spec_request_nums("set_default_value"@, seq![index as int, value as int])),
            index >= self.device_config.ports@.len() ==> (r matches Err(e) && e matches
                DeviceError::ConfigurationError(m) && m@ == "Incorrect index"@),
    {
        if (index as usize) < self.device_config.ports.len() {
            let mut data: Vec<u8> = Vec::new();
            data.push(index);
            data.push(value);
            let line = request_nums("set_default_value", &data);
            proof {
                assert(data@.map_values(|x: u8| x as int) =~= seq![index as int, value as int]);
            }
            Ok(line)
        } else {
            Err(DeviceError::ConfigurationError("Incorrect index".to_owned()))
        }
    }

    /// The set_value request for one channel. On success the cached value
    /// for that channel is updated first, independent of the device's
    /// acknowledgement. An index that does not address a configured channel
    /// is a configuration error: no request line exists and no state moves.
    pub fn set_plug_value(&mut self, index: u8, value: PortValue) -> (r: Result<
        String,
        DeviceError,
    >)
        ensures
            final(self).connected == old(self).connected,
            final(self).serial_info == old(self).serial_info,
            final(self).device_info == old(self).device_info,
            final(self).device_config == old(self).device_config,
            final(self).device_state == old(self).device_state,
            index < old(self).device_config.ports@.len() ==> (r matches Ok(line) && line@
                == spec_request_nums("set_value"@, seq![index as int, value as int]) && final(self).plugs_values@ == (if index < old(self).plugs_values@.len() {
                old(self).plugs_values@.update(index as int, value)
            } else {
                old(self).plugs_values@
            })),
            index >= old(self).device_config.ports@.len() ==> (r matches Err(e) && e matches
                DeviceError::ConfigurationError(m) && m@ == "Incorrect index"@ && final(self).plugs_values == old(self).plugs_values),
    {
        if (index as usize) < self.device_config.ports.len() {
            if (index as usize) < self.plugs_values.len() {
                self.plugs_values.set(index as usize, value);
            }
            let mut data: Vec<u8> = Vec::new();
            data.push(index);
            data.push(value);
            let line = request_nums("set_value", &data);
            proof {
                assert(data@.map_values(|x: u8| x as int) =~= seq![index as int, value as int]);
            }
            Ok(line)
        } else {
            Err(DeviceError::ConfigurationError("Incorrect index".to_owned()))
        }
    }

    /// Records a fetched board identity.
    pub fn apply_board_info(&mut self, info: DeviceInfo)
        ensures
            final(self).device_info == info,
            final(self).connected == old(self).connected,
            final(self).serial_info == old(self).serial_info,
            final(self).plugs_values == old(self).plugs_values,
            final(self).device_config == old(self).device_config,
            final(self).device_state == old(self).device_state,
    {
        self.device_info = info;
    }

    /// Records fetched per-channel values.
    pub fn apply_plugs_values(&mut self, values: Vec<PortValue>)
        ensures
            final(self).plugs_values == values,
            final(self).connected == old(self).connected,
            final(self).serial_info == old(self).serial_info,
            final(self).device_info == old(self).device_info,
            final(self).device_config == old(self).device_config,
            final(self).device_state == old(self).device_state,
    {
        self.plugs_values = values;
    }

    /// Records a fetched configuration.
    pub fn apply_device_config(&mut self, config: DeviceConfig)
        ensures
            final(self).device_config == config,
            final(self).connected == old(self).connected,
            final(self).serial_info == old(self).serial_info,
            final(self).device_info == old(self).device_info,
            final(self).plugs_values == old(self).plugs_values,
            final(self).device_state == old(self).device_state,
    {
        self.device_config = config;
    }

    /// Records an acknowledged ports_setup: the cached channel list is
    /// replaced; the caller refetches the values next.
    pub fn apply_plugs_config(&mut self, plugs: &Vec<u8>)
        ensures
            final(self).device_config.ports@ == plugs@,
            final(self).device_config.default_values == old(self).device_config.default_values,
            final(self).device_config.update_time == old(self).device_config.update_time,
            final(self).connected == old(self).connected,
            final(self).serial_info == old(self).serial_info,
            final(self).device_info == old(self).device_info,
            final(self).plugs_values == old(self).plugs_values,
            final(self).device_state == old(self).device_state,
    {
        self.device_config.ports = clone_u8_vec(plugs);
    }
}

} // verus!
