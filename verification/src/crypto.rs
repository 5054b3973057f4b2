//! The two cryptographic primitives the contract consumes, each behind a
//! trusted wrapper whose result carries a name the contracts can speak of.

use vstd::prelude::*;

verus! {

use vstd::utf8::encode_utf8;

/// The SHA-256 digest of a byte string.
pub uninterp spec fn sha256_of(data: Seq<u8>) -> Seq<u8>;

/// The standard-alphabet base64 rendering of a byte string.
pub uninterp spec fn base64_of(data: Seq<u8>) -> Seq<char>;

/// Relies on secret_toolkit_crypto::sha_256 (the sha2 crate's SHA-256): the
/// digest is 32 bytes and a function of the input bytes alone.
#[verifier::external_body]
pub(crate) fn sha_256(data: &[u8]) -> (r: Vec<u8>)
    ensures
        r@ == sha256_of(data@),
        r@.len() == 32,
{
    secret_toolkit_crypto::sha_256(data).to_vec()
}

/// Relies on base64::encode: standard-alphabet encoding with padding, a
/// function of the input bytes alone.
#[verifier::external_body]
pub(crate) fn base64_encode(data: &[u8]) -> (r: String)
    ensures
        r@ == base64_of(data@),
{
    base64::encode(data)
}

/// The UTF-8 bytes of a string, as a slice.
pub fn string_bytes(s: &String) -> (r: &[u8])
    ensures
        r@ == encode_utf8(s@),
{
    s.as_str().as_bytes()
}

} // verus!
