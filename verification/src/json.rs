//! The few questions the daemon asks of a JSON text without decoding it.
use vstd::prelude::*;

verus! {

/// Why a byte string is not a JSON text, if it is not.
pub uninterp spec fn json_failure(body: Seq<u8>) -> Option<Seq<char>>;

/// Calls `serde_json::from_slice` for a `serde_json::Value` and renders the
/// error. Whether the bytes are JSON, and what the error says, depends on the
/// bytes alone.
#[verifier::external_body]
pub(crate) fn json_error(body: &[u8]) -> (r: Option<String>)
    ensures
        r is Some <==> json_failure(body@) is Some,
        r matches Some(text) ==> json_failure(body@) == Some(text@),
{
    serde_json::from_slice::<serde_json::Value>(body).err().map(|err| err.to_string())
}

/// How many elements the array has that a JSON pointer leads to; nothing where
/// the text is not JSON or the pointer leads to no array.
pub uninterp spec fn json_array_at(body: Seq<u8>, pointer: Seq<char>) -> Option<usize>;

/// Calls `serde_json::from_slice`, `Value::pointer` and `Value::as_array`. The
/// length depends on the bytes and the pointer alone.
#[verifier::external_body]
pub(crate) fn json_array_len(body: &[u8], pointer: &str) -> (r: Option<usize>)
    ensures
        r == json_array_at(body@, pointer@),
{
    let value = serde_json::from_slice::<serde_json::Value>(body).ok()?;
    value.pointer(pointer)?.as_array().map(|array| array.len())
}

/// The string that a JSON pointer leads to; nothing where the text is not JSON or
/// the pointer leads to no string.
pub uninterp spec fn json_text_at(body: Seq<u8>, pointer: Seq<char>) -> Option<Seq<char>>;

/// Calls `serde_json::from_slice`, `Value::pointer` and `Value::as_str`. The
/// string depends on the bytes and the pointer alone.
#[verifier::external_body]
pub(crate) fn json_text(body: &[u8], pointer: &str) -> (r: Option<String>)
    ensures
        r is Some <==> json_text_at(body@, pointer@) is Some,
        r matches Some(text) ==> json_text_at(body@, pointer@) == Some(text@),
{
    let value = serde_json::from_slice::<serde_json::Value>(body).ok()?;
    value.pointer(pointer)?.as_str().map(|text| text.to_string())
}

/// Whether a JSON pointer leads to anything.
pub uninterp spec fn json_holds(body: Seq<u8>, pointer: Seq<char>) -> bool;

/// Calls `serde_json::from_slice` and `Value::pointer`. The answer depends on the
/// bytes and the pointer alone; a text that is not JSON holds nothing.
#[verifier::external_body]
pub(crate) fn json_has(body: &[u8], pointer: &str) -> (r: bool)
    ensures
        r == json_holds(body@, pointer@),
{
    match serde_json::from_slice::<serde_json::Value>(body) {
        Ok(value) => value.pointer(pointer).is_some(),
        Err(_) => false,
    }
}

} // verus!
