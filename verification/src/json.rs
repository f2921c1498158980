//! Trusted JSON projections, all computed by serde_json. Each projection is
//! a pure function of the line's text alone, so each gets a name: an
//! uninterpreted spec function that the one wrapper computing the
//! projection is specified against. The protocol code decides everything on
//! those named plain values.

use vstd::prelude::*;

verus! {

/// Whether serde_json parses the line.
pub uninterp spec fn spec_json_line_ok(line: Seq<char>) -> bool;

/// The text of one top-level string field of the line's JSON object;
/// absent when the line does not parse to an object, the field is missing,
/// or the field is no string.
pub uninterp spec fn spec_json_string_field(line: Seq<char>, key: Seq<char>) -> Option<Seq<char>>;

/// Whether the line's JSON object has the field, with a value other than
/// null.
pub uninterp spec fn spec_json_field_present(line: Seq<char>, key: Seq<char>) -> bool;

/// The text of one string field inside an object-valued field of the
/// line's JSON object.
pub uninterp spec fn spec_json_nested_string_field(
    line: Seq<char>,
    outer: Seq<char>,
    key: Seq<char>,
) -> Option<Seq<char>>;

/// One unsigned integer field inside an object-valued field of the line's
/// JSON object; absent for a missing field and for anything but an
/// unsigned integral number.
pub uninterp spec fn spec_json_nested_u64_field(
    line: Seq<char>,
    outer: Seq<char>,
    key: Seq<char>,
) -> Option<int>;

/// The length of one array field inside an object-valued field of the
/// line's JSON object; absent when that field is no array.
pub uninterp spec fn spec_json_nested_list_len(
    line: Seq<char>,
    outer: Seq<char>,
    key: Seq<char>,
) -> Option<int>;

/// One element of such an array field, as an unsigned integer; absent for
/// an index out of bounds and for anything but an unsigned integral
/// number.
pub uninterp spec fn spec_json_nested_list_u64_at(
    line: Seq<char>,
    outer: Seq<char>,
    key: Seq<char>,
    index: int,
) -> Option<int>;

/// Relies on serde_json::from_str: whether the line is valid JSON; the
/// error carries serde_json's own description.
#[verifier::external_body]
pub fn json_line_ok(line: &str) -> (r: Result<(), String>)
    ensures
        r is Ok <==> spec_json_line_ok(line@),
{
    match serde_json::from_str::<serde_json::Value>(line) {
        Ok(_) => Ok(()),
        Err(e) => Err(e.to_string()),
    }
}

/// Relies on serde_json::from_str and Value::{get, as_str}: one top-level
/// string field of the line.
#[verifier::external_body]
pub fn json_string_field(line: &str, key: &str) -> (r: Option<String>)
    ensures
        match r {
            Some(s) => spec_json_string_field(line@, key@) == Some(s@),
            None => spec_json_string_field(line@, key@) is None,
        },
{
    let value: serde_json::Value = serde_json::from_str(line).ok()?;
    Some(value.get(key)?.as_str()?.to_owned())
}

/// Relies on serde_json::from_str and Value::{get, is_null}: whether the
/// line has a top-level field that is not null.
#[verifier::external_body]
pub fn json_field_present(line: &str, key: &str) -> (r: bool)
    ensures
        r == spec_json_field_present(line@, key@),
{
    match serde_json::from_str::<serde_json::Value>(line) {
        Ok(value) => match value.get(key) {
            Some(field) => !field.is_null(),
            None => false,
        },
        Err(_) => false,
    }
}

/// Relies on serde_json::from_str and Value::{get, as_str}: one string
/// field of an object-valued field of the line.
#[verifier::external_body]
pub fn json_nested_string_field(line: &str, outer: &str, key: &str) -> (r: Option<String>)
    ensures
        match r {
            Some(s) => spec_json_nested_string_field(line@, outer@, key@) == Some(s@),
            None => spec_json_nested_string_field(line@, outer@, key@) is None,
        },
{
    let value: serde_json::Value = serde_json::from_str(line).ok()?;
    Some(value.get(outer)?.get(key)?.as_str()?.to_owned())
}

/// Relies on serde_json::from_str and Value::{get, as_u64}: one unsigned
/// integer field of an object-valued field of the line.
#[verifier::external_body]
pub fn json_nested_u64_field(line: &str, outer: &str, key: &str) -> (r: Option<u64>)
    ensures
        match r {
            Some(n) => spec_json_nested_u64_field(line@, outer@, key@) == Some(n as int),
            None => spec_json_nested_u64_field(line@, outer@, key@) is None,
        },
{
    let value: serde_json::Value = serde_json::from_str(line).ok()?;
    value.get(outer)?.get(key)?.as_u64()
}

/// Relies on serde_json::from_str and Value::{get, as_array}: the length
/// of one array field of an object-valued field of the line.
#[verifier::external_body]
pub fn json_nested_list_len(line: &str, outer: &str, key: &str) -> (r: Option<usize>)
    ensures
        match r {
            Some(n) => spec_json_nested_list_len(line@, outer@, key@) == Some(n as int),
            None => spec_json_nested_list_len(line@, outer@, key@) is None,
        },
{
    let value: serde_json::Value = serde_json::from_str(line).ok()?;
    Some(value.get(outer)?.get(key)?.as_array()?.len())
}

/// Relies on serde_json::from_str and Value::{get, as_array, as_u64}: one
/// element of such an array field, as an unsigned integer.
#[verifier::external_body]
pub fn json_nested_list_u64_at(line: &str, outer: &str, key: &str, index: usize) -> (r: Option<
    u64,
>)
    ensures
        match r {
            Some(n) => spec_json_nested_list_u64_at(line@, outer@, key@, index as int) == Some(
                n as int,
            ),
            None => spec_json_nested_list_u64_at(line@, outer@, key@, index as int) is None,
        },
{
    let value: serde_json::Value = serde_json::from_str(line).ok()?;
    value.get(outer)?.get(key)?.as_array()?.get(index)?.as_u64()
}

} // verus!
