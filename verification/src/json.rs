//! Payload serialisation through `serde_json`.

use vstd::prelude::*;

verus! {

#[verifier::external_type_specification]
#[verifier::external_body]
pub struct ExJsonValue(serde_json::Value);

#[verifier::external_type_specification]
#[verifier::external_body]
pub struct ExJsonError(serde_json::Error);

/// The compact JSON text that `serde_json::to_string` renders for a value.
pub uninterp spec fn json_text(value: serde_json::Value) -> Seq<char>;

/// Calls `serde_json::to_string` on a payload. Trusted: the call succeeds,
/// and the string is the JSON text of the value. The serialiser fails only
/// on an I/O error of its writer and on a map key that is no string; it
/// writes to a vector here, and the keys of a JSON object are strings.
#[verifier::external_body]
pub(crate) fn payload_text(value: &serde_json::Value) -> (text: Result<String, serde_json::Error>)
    ensures
        text is Ok,
        text matches Ok(s) ==> s@ == json_text(*value),
{
    serde_json::to_string(value)
}

} // verus!
