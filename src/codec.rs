//! The base64 and MD5 computations that a job submission and an invoice need.
use vstd::prelude::*;
use vstd::string::StringSliceAdditionalSpecFns;

verus! {

/// The standard, padded base64 text of `b`.
pub uninterp spec fn base64_of(b: Seq<u8>) -> Seq<char>;

/// The bytes that the standard, padded base64 text `s` decodes to, or `None`
/// where `s` is no such text.
pub uninterp spec fn base64_decoded(s: Seq<char>) -> Option<Seq<u8>>;

/// The MD5 digest of the UTF-8 bytes of `s`, as 32 lower-case hex digits.
pub uninterp spec fn md5_hex_of(s: Seq<char>) -> Seq<char>;

/// Inputs whose base64 text has a length that fits in `usize`.
pub open spec fn encodable_len(n: nat) -> bool {
    n <= 3 * (usize::MAX as int / 4)
}

#[verifier::external_type_specification]
#[verifier::external_body]
pub struct ExDecodeError(base64::DecodeError);

/// Relies on `base64::encode` (base64 0.13, standard alphabet with padding):
/// four characters for every started group of three bytes, and text that
/// `base64::decode` turns back into the same bytes (the crate's round-trip
/// tests). It panics only where the encoded length overflows `usize`.
#[verifier::external_body]
pub(crate) fn encode_base64(b: &[u8]) -> (r: String)
    requires
        encodable_len(b@.len()),
    ensures
        r@ == base64_of(b@),
        r@.len() == 4 * ((b@.len() + 2) / 3),
        base64_decoded(r@) == Some(b@),
{
    base64::encode(b)
}

/// Relies on `base64::decode` (base64 0.13, standard alphabet with padding):
/// the bytes of a well-formed text, or an error. It panics only where the
/// input length plus 7 overflows `usize`.
#[verifier::external_body]
pub(crate) fn decode_base64(s: &str) -> (r: Result<Vec<u8>, base64::DecodeError>)
    requires
        s.spec_bytes().len() <= usize::MAX - 7,
    ensures
        r is Ok <==> base64_decoded(s@) is Some,
        r is Ok ==> base64_decoded(s@) == Some(r->Ok_0@),
{
    base64::decode(s)
}

/// Relies on `md5::compute` (md5 0.7) over the bytes of `s`, written with its
/// `LowerHex` impl: two lower-case hex digits for each of the 16 digest bytes.
#[verifier::external_body]
pub(crate) fn md5_hex(s: &str) -> (r: String)
    ensures
        r@ == md5_hex_of(s@),
        r@.len() == 32,
{
    format!("{:x}", md5::compute(s.as_bytes()))
}

} // verus!
