//! Trusted surface over the JSON crate: the parsed value is opaque to the
//! verifier, so each call it needs is wrapped here, and everything read out
//! of a document is judged by verified code on plain values.

use vstd::prelude::*;

verus! {

#[verifier::external_type_specification]
#[verifier::external_body]
pub struct ExJsonValue(serde_json::Value);

/// Relies on serde_json::from_str::<Value>: parses JSON text into a value,
/// or reports the parse error's message.
#[verifier::external_body]
pub(crate) fn json_from_str(s: &str) -> Result<serde_json::Value, String> {
    match serde_json::from_str::<serde_json::Value>(s) {
        Ok(v) => Ok(v),
        Err(e) => Err(e.to_string()),
    }
}

/// Relies on serde_json::Value::get: the value under this key when `v` is
/// an object that has it, `None` otherwise.
#[verifier::external_body]
pub(crate) fn json_get<'a>(v: &'a serde_json::Value, key: &str) -> Option<&'a serde_json::Value> {
    v.get(key)
}

/// Relies on serde_json::Value::as_str: the borrowed text when `v` is a
/// JSON string, `None` otherwise.
#[verifier::external_body]
pub(crate) fn json_as_str(v: &serde_json::Value) -> Option<&str> {
    v.as_str()
}

} // verus!
