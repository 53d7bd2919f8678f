use vstd::prelude::*;

verus! {

/// serde_json's dynamic JSON value, opaque to the verifier. The metadata
/// loader walks such values through the trusted accessors below; everything
/// it concludes from them is checked in verified code.
#[verifier::external_type_specification]
#[verifier::external_body]
pub struct ExJsonValue(serde_json::Value);

/// Relies on serde_json::from_str: parses `s` as one JSON document.
/// `None` on malformed input; the loader treats a malformed sidecar like a
/// missing one, so the parse error itself is dropped.
#[verifier::external_body]
pub(crate) fn json_parse(s: &str) -> Option<serde_json::Value> {
    serde_json::from_str(s).ok()
}

/// Relies on serde_json::Value::get: object-member lookup by key; `None`
/// when `v` is not an object or has no such member.
#[verifier::external_body]
pub(crate) fn json_member<'a>(v: &'a serde_json::Value, key: &str) -> Option<&'a serde_json::Value> {
    v.get(key)
}

/// Relies on serde_json::Value::as_array: the element vector when `v` is a
/// JSON array, `None` otherwise.
#[verifier::external_body]
pub(crate) fn json_as_array(v: &serde_json::Value) -> Option<&Vec<serde_json::Value>> {
    v.as_array()
}

/// Relies on serde_json::Value::as_i64: the numeric value when `v` is an
/// integer representable in 64 bits, `None` otherwise.
#[verifier::external_body]
pub(crate) fn json_as_i64(v: &serde_json::Value) -> Option<i64> {
    v.as_i64()
}

/// Relies on serde_json::Value::as_str: the borrowed text when `v` is a
/// JSON string, `None` otherwise.
#[verifier::external_body]
pub(crate) fn json_as_str(v: &serde_json::Value) -> Option<&str> {
    v.as_str()
}

} // verus!
