//! The library's only window on raw upstream JSON.
//!
//! Upstream bodies are parsed with `serde_json`, whose value type is opaque
//! to the verifier. Every reading of such a value goes through one of the
//! trusted accessors below; the verified extraction code around them treats
//! every possible answer, so nothing is assumed about what a body holds.

use vstd::prelude::*;

verus! {

#[verifier::external_type_specification]
#[verifier::external_body]
pub struct ExValue(serde_json::Value);

/// Relies on `serde_json::from_str`: turns a body into a JSON value, or
/// nothing when the text is not JSON.
#[verifier::external_body]
pub(crate) fn parse(text: &str) -> (r: Option<serde_json::Value>) {
    serde_json::from_str(text).ok()
}

/// Relies on `serde_json::Value::get` with a string key: looks a member up
/// in a JSON object, or nothing when the value is no object or has no such
/// member.
#[verifier::external_body]
pub(crate) fn member<'a>(v: &'a serde_json::Value, key: &str) -> (r: Option<
    &'a serde_json::Value,
>) {
    v.get(key)
}

/// Relies on `serde_json::Value::get` with an index: picks an element of a
/// JSON array, or nothing when the value is no array or too short.
#[verifier::external_body]
pub(crate) fn element<'a>(v: &'a serde_json::Value, i: usize) -> (r: Option<
    &'a serde_json::Value,
>) {
    v.get(i)
}

/// Relies on `serde_json::Value::as_str`: the text of a JSON string, or
/// nothing for any other shape.
#[verifier::external_body]
pub(crate) fn as_string(v: &serde_json::Value) -> (r: Option<String>) {
    v.as_str().map(|s| s.to_owned())
}

/// Relies on `serde_json::Value::as_u64`: a JSON integer that fits an
/// unsigned machine word, or nothing for any other shape.
#[verifier::external_body]
pub(crate) fn as_u64(v: &serde_json::Value) -> (r: Option<u64>) {
    v.as_u64()
}

/// Relies on `serde_json::Value::as_i64`: a JSON integer that fits a signed
/// machine word, or nothing for any other shape.
#[verifier::external_body]
pub(crate) fn as_i64(v: &serde_json::Value) -> (r: Option<i64>) {
    v.as_i64()
}

/// Relies on `serde_json::Value::as_bool`: a JSON boolean, or nothing for
/// any other shape.
#[verifier::external_body]
pub(crate) fn as_bool(v: &serde_json::Value) -> (r: Option<bool>) {
    v.as_bool()
}

/// Relies on `serde_json::Value::as_array`: the elements of a JSON array,
/// or nothing for any other shape.
#[verifier::external_body]
pub(crate) fn as_array<'a>(v: &'a serde_json::Value) -> (r: Option<&'a Vec<serde_json::Value>>) {
    v.as_array()
}

} // verus!
