//! Base64 transport encoding, from the base64 crate.
use vstd::prelude::*;

verus! {

/// The standard base64 text of `b`, with padding.
pub uninterp spec fn base64_of(b: Seq<u8>) -> Seq<char>;

/// The bytes that standard base64 decoding recovers from `t`, if it is base64.
pub uninterp spec fn base64_decoded(t: Seq<char>) -> Option<Seq<u8>>;

#[verifier::external_type_specification]
#[verifier::external_body]
pub struct ExBase64DecodeError(base64::DecodeError);

/// A character of the standard base64 alphabet, or the padding `=`.
pub open spec fn is_base64_char(c: char) -> bool {
    ('A' <= c <= 'Z') || ('a' <= c <= 'z') || ('0' <= c <= '9') || c == '+' || c == '/' || c == '='
}

/// Relies on base64::encode (standard alphabet, padded): four characters for
/// each started group of three bytes, all from the alphabet or `=`; decoding
/// its output with base64::decode gives the input back. Its only panic, on a
/// length whose encoded size overflows `usize`, cannot occur for a `Vec<u8>`.
#[verifier::external_body]
pub(crate) fn base64_encode(b: &Vec<u8>) -> (r: String)
    ensures
        r@ == base64_of(b@),
        base64_decoded(r@) == Some(b@),
        r@.len() == 4 * ((b@.len() + 2) / 3),
        forall|i: int| 0 <= i < r@.len() ==> is_base64_char(#[trigger] r@[i]),
{
    base64::encode(b)
}

/// Some character of `t` is neither of the alphabet nor `=`.
pub open spec fn has_foreign_char(t: Seq<char>) -> bool {
    exists|i: int| 0 <= i < t.len() && !is_base64_char(#[trigger] t[i])
}

/// Relies on base64::decode (standard alphabet): `Ok` exactly on base64 text;
/// a byte outside the alphabet, other than padding, is an `InvalidByte` error.
#[verifier::external_body]
pub(crate) fn base64_decode(t: &str) -> (r: Result<Vec<u8>, base64::DecodeError>)
    ensures
        r is Ok <==> base64_decoded(t@) is Some,
        r is Ok ==> base64_decoded(t@) == Some(r->Ok_0@),
        has_foreign_char(t@) ==> r is Err,
{
    base64::decode(t)
}

} // verus!
