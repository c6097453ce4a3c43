//! Byte encodings used by pagination cursors: URL-safe base64 without
//! padding (the `base64` crate) and UTF-8 (std).

use vstd::prelude::*;
use vstd::utf8::{decode_utf8, encode_utf8, valid_utf8};
use base64::Engine;

verus! {

/// What the `base64` crate's `URL_SAFE_NO_PAD` engine encodes the bytes to.
pub uninterp spec fn base64_url_encoding(bytes: Seq<u8>) -> Seq<char>;

/// What the `base64` crate's `URL_SAFE_NO_PAD` engine decodes the text to,
/// or `None` where it reports a `DecodeError`.
pub uninterp spec fn base64_url_decoding(text: Seq<char>) -> Option<Seq<u8>>;

/// Calls `base64::engine::general_purpose::URL_SAFE_NO_PAD.encode`. The
/// contract claims that the result is the engine's encoding of the bytes, a
/// function of the bytes alone, and that the same engine decodes it back to
/// those bytes (the crate's round trip: the encoder writes no padding and
/// zero trailing bits, which the `NO_PAD` decoder requires).
#[verifier::external_body]
pub(crate) fn base64_url_encode(bytes: &[u8]) -> (text: String)
    ensures
        text@ == base64_url_encoding(bytes@),
        base64_url_decoding(text@) == Some(bytes@),
{
    base64::engine::general_purpose::URL_SAFE_NO_PAD.encode(bytes)
}

/// Calls `base64::engine::general_purpose::URL_SAFE_NO_PAD.decode` and turns
/// its `DecodeError` into its display text. The contract claims that the
/// result is the engine's decoding of the text, and that text the engine
/// itself produced for some bytes decodes back to exactly those bytes (the
/// crate's documented round trip; `NO_PAD` encodes without padding and
/// decodes requiring none).
#[verifier::external_body]
pub(crate) fn base64_url_decode(text: &str) -> (r: Result<Vec<u8>, String>)
    ensures
        r is Ok <==> base64_url_decoding(text@) is Some,
        r matches Ok(bytes) ==> base64_url_decoding(text@) == Some(bytes@),
        forall|source: Seq<u8>| base64_url_encoding(source) == text@
            ==> r is Ok && r->Ok_0@ == source,
{
    base64::engine::general_purpose::URL_SAFE_NO_PAD.decode(text).map_err(|e| e.to_string())
}

/// Calls `String::from_utf8`, turning its error into its display text. The
/// contract claims what std documents: the bytes are accepted exactly when
/// they are valid UTF-8, and the string holds the characters they encode.
#[verifier::external_body]
pub(crate) fn string_from_utf8(bytes: Vec<u8>) -> (r: Result<String, String>)
    ensures
        r is Ok <==> valid_utf8(bytes@),
        r matches Ok(s) ==> s@ == decode_utf8(bytes@),
{
    String::from_utf8(bytes).map_err(|e| e.to_string())
}

/// The UTF-8 bytes of a string.
pub fn utf8_bytes(s: &str) -> (b: &[u8])
    ensures
        b@ == encode_utf8(s@),
{
    s.as_bytes()
}

/// The cursor text of a string: base64 of its UTF-8 bytes.
pub open spec fn spec_encode_str(s: Seq<char>) -> Seq<char> {
    base64_url_encoding(encode_utf8(s))
}

/// What decoding a cursor text yields, `None` for a malformed cursor.
pub open spec fn spec_decode_str(text: Seq<char>) -> Option<Seq<char>> {
    match base64_url_decoding(text) {
        Some(bytes) => if valid_utf8(bytes) {
            Some(decode_utf8(bytes))
        } else {
            None
        },
        None => None,
    }
}

/// Base64 (URL-safe, unpadded) of the string's UTF-8 bytes.
pub fn base64_encode_str(s: &str) -> (r: String)
    ensures
        r@ == spec_encode_str(s@),
        spec_decode_str(r@) == Some(s@),
{
    proof {
        broadcast use vstd::utf8::encode_utf8_valid_utf8, vstd::utf8::encode_utf8_decode_utf8;
    }
    base64_url_encode(utf8_bytes(s))
}

/// Decode a cursor produced by [`base64_encode_str`].
pub fn base64_decode_str(s: &str) -> (r: Result<String, String>)
    ensures
        r is Ok <==> spec_decode_str(s@) is Some,
        r matches Ok(v) ==> spec_decode_str(s@) == Some(v@),
        forall|source: Seq<char>| #[trigger] spec_encode_str(source) == s@
            ==> (r matches Ok(v) && v@ == source),
{
    proof {
        broadcast use vstd::utf8::encode_utf8_valid_utf8, vstd::utf8::encode_utf8_decode_utf8;
    }
    match base64_url_decode(s) {
        Ok(bytes) => string_from_utf8(bytes),
        Err(e) => Err(e),
    }
}

} // verus!
