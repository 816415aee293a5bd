//! Encodings that the façade hands to outside crates: base64 for binary
//! payloads and JSON string literals for error bodies.
use vstd::prelude::*;

verus! {

/// The standard (RFC 4648, padded) base64 text of a byte sequence.
pub uninterp spec fn base64_of(bytes: Seq<u8>) -> Seq<char>;

/// The compact JSON string literal, quotes included, that encodes a text.
pub uninterp spec fn json_string_of(text: Seq<char>) -> Seq<char>;

/// Relies on `base64::Engine::encode` of `base64::prelude::BASE64_STANDARD`:
/// the result is a function of the bytes alone, four characters for each
/// started group of three bytes (padding included). The size computation
/// inside it only overflows for inputs longer than any allocation.
#[verifier::external_body]
pub(crate) fn base64_standard(bytes: &[u8]) -> (r: String)
    requires
        bytes@.len() <= isize::MAX,
    ensures
        r@ == base64_of(bytes@),
        r@.len() == 4 * ((bytes@.len() + 2) / 3),
{
    base64::Engine::encode(&base64::prelude::BASE64_STANDARD, bytes)
}

/// Relies on the compact `Display` of `serde_json::Value::String`: the JSON
/// literal of the text, which opens and closes with a double quote.
#[verifier::external_body]
pub(crate) fn json_string(text: &str) -> (r: String)
    ensures
        r@ == json_string_of(text@),
        r@.len() >= 2,
        r@[0] == '"',
        r@[r@.len() - 1] == '"',
{
    serde_json::Value::String(text.to_owned()).to_string()
}

} // verus!
