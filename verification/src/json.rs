//! JSON payloads and their bytes.
//!
//! Payloads are `serde_json` values. The library carries them through
//! without looking into them; what it knows of them is what `serde_json`
//! writes for them and reads back.
use serde_json::Value;
use vstd::prelude::*;

verus! {

/// The JSON value of `serde_json`. Nothing inside it is visible to the
/// verifier.
#[verifier::external_type_specification]
#[verifier::external_body]
pub struct ExValue(serde_json::Value);

/// The error of `serde_json`. Nothing inside it is visible to the verifier.
#[verifier::external_type_specification]
#[verifier::external_body]
pub struct ExJsonError(serde_json::Error);

/// The bytes that `serde_json::to_vec` writes for a value, or the error it
/// reports.
pub uninterp spec fn json_encoding(value: Value) -> Result<Seq<u8>, serde_json::Error>;

/// The value that `serde_json::from_slice` reads from bytes, or the error it
/// reports.
pub uninterp spec fn json_decoding(bytes: Seq<u8>) -> Result<Value, serde_json::Error>;

/// The text that a `serde_json` error displays.
pub uninterp spec fn json_error_text(error: serde_json::Error) -> Seq<char>;

/// Calls `serde_json::to_vec` on a JSON value. Assumed, not proved: the call
/// is a function of the value alone, so its outcome is `json_encoding` of
/// the value.
#[verifier::external_body]
pub(crate) fn json_to_vec(value: &Value) -> (written: Result<Vec<u8>, serde_json::Error>)
    ensures
        match written {
            Ok(bytes) => json_encoding(*value) == Ok::<Seq<u8>, serde_json::Error>(bytes@),
            Err(error) => json_encoding(*value) == Err::<Seq<u8>, serde_json::Error>(error),
        },
{
    serde_json::to_vec(value)
}

/// Calls `serde_json::from_slice` to read bytes as a JSON value. Assumed,
/// not proved: the call is a function of the bytes alone, so its outcome is
/// `json_decoding` of the bytes.
#[verifier::external_body]
pub(crate) fn json_from_slice(bytes: &[u8]) -> (read: Result<Value, serde_json::Error>)
    ensures
        read == json_decoding(bytes@),
{
    serde_json::from_slice(bytes)
}

/// Calls `to_string` on a `serde_json` error, which formats it with its
/// `Display` impl. Assumed, not proved: the text is a function of the error
/// alone, so it is `json_error_text` of the error.
#[verifier::external_body]
pub(crate) fn json_error_message(error: &serde_json::Error) -> (text: String)
    ensures
        text@ == json_error_text(*error),
{
    error.to_string()
}

} // verus!
