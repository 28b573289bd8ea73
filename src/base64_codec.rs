//! Standard base64 (padded, no line breaks), delegated to the base64 crate.
use vstd::prelude::*;

use crate::error::BinasciiError;

verus! {

#[verifier::external_type_specification]
#[verifier::external_body]
pub struct ExDecodeError(base64::DecodeError);

/// The standard padded base64 text of `b`, as ASCII bytes.
pub uninterp spec fn base64_text(b: Seq<u8>) -> Seq<u8>;

/// What the standard base64 decoder makes of `s`: the bytes, or `None` where
/// `s` is not well-formed base64.
pub uninterp spec fn base64_bytes(s: Seq<u8>) -> Option<Seq<u8>>;

/// The length of padded base64 text for `n` bytes: four per started group of three.
pub open spec fn base64_len(n: nat) -> nat {
    4 * ((n + 2) / 3)
}

/// Relies on base64's `encode` (standard alphabet, padded): the text, of four
/// characters per started group of three bytes, which the standard decoder
/// turns back into `b`. Its length computation panics only past `usize`.
#[verifier::external_body]
fn encode_standard(b: &[u8]) -> (r: Vec<u8>)
    requires
        b@.len() <= usize::MAX / 2,
    ensures
        r@ == base64_text(b@),
        r@.len() == base64_len(b@.len()),
        base64_bytes(r@) == Some(b@),
{
    base64::encode(b).into_bytes()
}

/// Relies on base64's `decode` (standard alphabet): the bytes, or the
/// decoder's error on malformed input. Its buffer estimate panics only past `usize`.
#[verifier::external_body]
fn decode_standard(s: &[u8]) -> (r: Result<Vec<u8>, base64::DecodeError>)
    requires
        s@.len() <= usize::MAX / 2,
    ensures
        r is Ok <==> base64_bytes(s@) is Some,
        r is Ok ==> r->Ok_0@ == base64_bytes(s@)->0,
{
    base64::decode(s)
}

/// Relies on the `Display` of base64's `DecodeError`: the diagnostic text.
#[verifier::external_body]
fn decode_error_text(e: &base64::DecodeError) -> (r: String) {
    e.to_string()
}

/// Encodes `bytes` as standard padded base64 text.
pub fn b2a_base64(bytes: &[u8]) -> (r: Vec<u8>)
    requires
        bytes@.len() <= usize::MAX / 2,
    ensures
        r@ == base64_text(bytes@),
        r@.len() == base64_len(bytes@.len()),
        base64_bytes(r@) == Some(bytes@),
{
    encode_standard(bytes)
}

/// Decodes standard base64 text; malformed input gives `Base64Decode` with
/// the decoder's diagnostic.
pub fn a2b_base64(text: &[u8]) -> (r: Result<Vec<u8>, BinasciiError>)
    requires
        text@.len() <= usize::MAX / 2,
    ensures
        r is Ok <==> base64_bytes(text@) is Some,
        r is Ok ==> r->Ok_0@ == base64_bytes(text@)->0,
        r is Err ==> r->Err_0 is Base64Decode,
{
    match decode_standard(text) {
        Ok(v) => Ok(v),
        Err(e) => Err(BinasciiError::Base64Decode(decode_error_text(&e))),
    }
}

} // verus!
