//! The parts of `serde_json` that the protocol logic reads.
use vstd::prelude::*;

verus! {

#[verifier::external_type_specification]
#[verifier::external_body]
pub struct ExValue(serde_json::Value);

/// What `Value::get` finds under `key`: the member of an object, none for any
/// other value or a missing key.
pub uninterp spec fn value_member(v: serde_json::Value, key: Seq<char>) -> Option<serde_json::Value>;

/// The string that `Value::as_str` finds: the value's text when it is a JSON
/// string, none otherwise.
pub uninterp spec fn value_text(v: serde_json::Value) -> Option<Seq<char>>;

/// The integer that `Value::as_u64` finds: the value when it is a number that
/// fits a `u64`, none otherwise.
pub uninterp spec fn value_u64(v: serde_json::Value) -> Option<u64>;

/// Relies on `serde_json::Value::get` with a string key: looks up a member of
/// an object.
#[verifier::external_body]
pub(crate) fn member<'a>(v: &'a serde_json::Value, key: &str) -> (r: Option<&'a serde_json::Value>)
    ensures
        r matches Some(m) ==> value_member(*v, key@) == Some(*m),
        r is None ==> value_member(*v, key@) is None,
{
    v.get(key)
}

/// Relies on `serde_json::Value::as_str`: the text of a JSON string.
#[verifier::external_body]
pub(crate) fn as_text(v: &serde_json::Value) -> (r: Option<String>)
    ensures
        r matches Some(s) ==> value_text(*v) == Some(s@),
        r is None ==> value_text(*v) is None,
{
    v.as_str().map(|s| s.to_string())
}

/// Relies on `serde_json::Value::as_u64`: a non-negative integer that fits.
#[verifier::external_body]
pub(crate) fn as_u64(v: &serde_json::Value) -> (r: Option<u64>)
    ensures
        r == value_u64(*v),
{
    v.as_u64()
}

/// The text found under `key` of `v`, when `v` is an object whose member
/// `key` is a string.
pub open spec fn text_member(v: serde_json::Value, key: Seq<char>) -> Option<Seq<char>> {
    match value_member(v, key) {
        Some(m) => value_text(m),
        None => None,
    }
}

/// The integer found under `key` of `v`.
pub open spec fn u64_member(v: serde_json::Value, key: Seq<char>) -> Option<u64> {
    match value_member(v, key) {
        Some(m) => value_u64(m),
        None => None,
    }
}

/// Look up the string member `key` of `v`.
pub fn get_text_member(v: &serde_json::Value, key: &str) -> (r: Option<String>)
    ensures
        r matches Some(s) ==> text_member(*v, key@) == Some(s@),
        r is None ==> text_member(*v, key@) is None,
{
    match member(v, key) {
        Some(m) => as_text(m),
        None => None,
    }
}

/// Look up the integer member `key` of `v`.
pub fn get_u64_member(v: &serde_json::Value, key: &str) -> (r: Option<u64>)
    ensures
        r == u64_member(*v, key@),
{
    match member(v, key) {
        Some(m) => as_u64(m),
        None => None,
    }
}

} // verus!
