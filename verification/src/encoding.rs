//! Hex and base64 encodings and the keys of JSON objects, as the hex,
//! base64 and serde_json crates compute them.

use vstd::prelude::*;
use base64::Engine;

verus! {

/// The lower-case hexadecimal digit for a value below 16.
pub open spec fn hex_digit(d: int) -> char {
    if d < 10 {
        ((48 + d) as u8) as char
    } else {
        ((87 + d) as u8) as char
    }
}

/// Lower-case hexadecimal text of a byte sequence: two digits per byte,
/// the high nibble first.
pub open spec fn hex_lower(bytes: Seq<u8>) -> Seq<char> {
    Seq::new(
        2 * bytes.len(),
        |i: int|
            if i % 2 == 0 {
                hex_digit((bytes[i / 2] / 16) as int)
            } else {
                hex_digit((bytes[i / 2] % 16) as int)
            },
    )
}

/// Wraps `hex::encode`, which writes each byte as two lower-case hex digits,
/// the high nibble first (table `0123456789abcdef`).
#[verifier::external_body]
pub fn hex_encode(bytes: &[u8]) -> (r: String)
    requires
        bytes@.len() * 2 <= isize::MAX,
    ensures
        r@ == hex_lower(bytes@),
{
    hex::encode(bytes)
}

/// What `base64::engine::general_purpose::STANDARD` decodes the given text to,
/// or `None` where it reports a decode error.
pub uninterp spec fn base64_decoded(text: Seq<char>) -> Option<Seq<u8>>;

/// The text that `base64::engine::general_purpose::STANDARD` encodes the bytes to.
pub uninterp spec fn base64_encoded(data: Seq<u8>) -> Seq<char>;

/// Wraps `Engine::decode` of the standard padded base64 engine on the
/// UTF-8 bytes of `text`; a decode error becomes `None`.
#[verifier::external_body]
pub fn base64_decode(text: &str) -> (r: Option<Vec<u8>>)
    ensures
        match r {
            Some(v) => base64_decoded(text@) == Some(v@),
            None => base64_decoded(text@) is None,
        },
{
    base64::engine::general_purpose::STANDARD.decode(text).ok()
}

/// The most bytes whose base64 text a `String` can hold: for longer input
/// the encoded size exceeds `isize::MAX` and encoding panics.
pub open spec fn base64_input_limit() -> int {
    isize::MAX / 4 * 3
}

/// Wraps `Engine::encode` of the standard padded base64 engine. Its output
/// is canonical padded base64, which the same engine decodes back to the
/// input (the crate's round-trip property).
#[verifier::external_body]
pub fn base64_encode(data: &[u8]) -> (r: String)
    requires
        data@.len() <= base64_input_limit(),
    ensures
        r@ == base64_encoded(data@),
        base64_decoded(r@) == Some(data@),
{
    base64::engine::general_purpose::STANDARD.encode(data)
}

/// Where the bytes are JSON text of an object: its keys, in the order of
/// serde_json's map (ordered by key); `None` where the bytes are not JSON or
/// not an object.
pub uninterp spec fn json_object_keys_of(text: Seq<u8>) -> Option<Seq<Seq<char>>>;

/// Wraps `serde_json::from_slice` into a `serde_json::Value` and, where the
/// value is an object, lists the keys of its map in the map's order.
#[verifier::external_body]
pub fn json_object_keys(text: &[u8]) -> (r: Option<Vec<String>>)
    ensures
        match r {
            Some(k) => json_object_keys_of(text@) == Some(crate::text::string_views(k@)),
            None => json_object_keys_of(text@) is None,
        },
{
    match serde_json::from_slice::<serde_json::Value>(text) {
        Ok(serde_json::Value::Object(m)) => Some(m.keys().cloned().collect()),
        _ => None,
    }
}

/// Whether the text is one JSON value, as serde_json reads it.
pub uninterp spec fn json_text_valid(text: Seq<char>) -> bool;

/// Wraps `serde_json::from_str` into a `serde_json::Value`: whether the text
/// parses as JSON.
#[verifier::external_body]
pub fn is_json_text(text: &str) -> (r: bool)
    ensures
        r == json_text_valid(text@),
{
    serde_json::from_str::<serde_json::Value>(text).is_ok()
}

} // verus!
