//! JSON encoding and decoding, done by serde_json.
use vstd::prelude::*;

verus! {

#[verifier::external_type_specification]
#[verifier::external_body]
pub struct ExJsonValue(serde_json::Value);

#[verifier::external_type_specification]
#[verifier::external_body]
pub struct ExJsonError(serde_json::Error);

/// Whether `serde_json::from_str::<serde_json::Value>` accepts the text.
pub uninterp spec fn json_parses(s: Seq<char>) -> bool;

/// Relies on `serde_json::to_string`: renders a JSON value as compact text.
/// On a `Value` it cannot fail: `Value`'s `Serialize` never fails, its map
/// keys are strings, non-finite numbers are written as `null`, and writing
/// into a `Vec` cannot fail.
#[verifier::external_body]
pub(crate) fn encode_json(v: &serde_json::Value) -> (r: Result<String, serde_json::Error>)
    ensures
        r is Ok,
{
    serde_json::to_string(v)
}

/// Relies on `serde_json::from_str`: whether it accepts a text depends on
/// the text alone.
#[verifier::external_body]
pub(crate) fn decode_json(s: &str) -> (r: Result<serde_json::Value, serde_json::Error>)
    ensures
        r is Ok <==> json_parses(s@),
{
    serde_json::from_str::<serde_json::Value>(s)
}

/// Relies on `Display` for `serde_json::Error`: a description of the error.
#[verifier::external_body]
pub(crate) fn json_error_text(e: &serde_json::Error) -> (r: String) {
    e.to_string()
}

} // verus!
