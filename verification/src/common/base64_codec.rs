//! Base64 (the standard alphabet, with padding) through the `base64` crate.
use vstd::prelude::*;
use base64::Engine;

verus! {

/// What `base64::engine::general_purpose::STANDARD.encode` gives for these bytes.
pub uninterp spec fn b64_encode_spec(bytes: Seq<u8>) -> Seq<char>;

/// What `base64::engine::general_purpose::STANDARD.decode` gives for the UTF-8
/// bytes of this text: `None` where it refuses the text.
pub uninterp spec fn b64_decode_spec(text: Seq<char>) -> Option<Seq<u8>>;

/// A character of the standard base64 alphabet, or the padding `=`.
pub open spec fn is_b64_char(c: char) -> bool {
    ('A' <= c && c <= 'Z') || ('a' <= c && c <= 'z') || ('0' <= c && c <= '9') || c == '+'
        || c == '/' || c == '='
}

/// `STANDARD.encode(bytes)` of the `base64` crate. Its contract: the result is
/// the named encoding of the bytes; it is made of the standard alphabet
/// `A-Z a-z 0-9 + /` and the padding `=` only; and `STANDARD.decode` gives the
/// bytes back from it. The crate panics only where the encoded length
/// overflows `usize`, which the bound on the input rules out.
#[verifier::external_body]
pub(crate) fn b64_encode(bytes: &[u8]) -> (r: String)
    requires
        bytes@.len() <= usize::MAX / 2,
    ensures
        r@ == b64_encode_spec(bytes@),
        forall|i: int| 0 <= i < r@.len() ==> is_b64_char(#[trigger] r@[i]),
        b64_decode_spec(r@) == Some(bytes@),
{
    base64::engine::general_purpose::STANDARD.encode(bytes)
}

/// `STANDARD.decode(text)` of the `base64` crate, its error mapped to `None`.
/// Its contract: the result is the named decoding of the text.
#[verifier::external_body]
pub(crate) fn b64_decode(text: &str) -> (r: Option<Vec<u8>>)
    ensures
        match b64_decode_spec(text@) {
            Some(b) => r matches Some(v) && v@ == b,
            None => r is None,
        },
{
    base64::engine::general_purpose::STANDARD.decode(text).ok()
}

} // verus!
