//! Viewing keys: bearer credentials for authenticated queries.
//!
//! The contract never stores a key's text, only its SHA-256 hash; a query
//! authenticates by hashing the presented key and comparing hashes.

use vstd::prelude::*;

verus! {

use vstd::string::StringExecFns;
use vstd::utf8::encode_utf8;
use crate::crypto::base64_of;
use crate::crypto::base64_encode;
use crate::crypto::sha256_of;
use crate::crypto::sha_256;
use crate::crypto::string_bytes;
use crate::rng::Prng;
use crate::rng::prng_block;
use crate::rng::prng_key;

/// The hash under which a key's text is stored and compared.
pub open spec fn key_hash(key: Seq<char>) -> Seq<u8> {
    sha256_of(encode_utf8(key))
}

/// The text of a key generated from a seed and per-transaction entropy: a
/// fixed prefix and the base64 rendering of 32 generator bytes.
pub open spec fn viewing_key_text(seed: Seq<u8>, rng_entropy: Seq<u8>) -> Seq<char> {
    "api_key_"@ + base64_of(prng_block(prng_key(seed, rng_entropy), 0))
}

/// A viewing key's text.
pub struct ViewingKey(pub String);

impl ViewingKey {
    /// Generates a fresh key from the persisted seed and per-transaction
    /// entropy.
    pub fn new(seed: &Vec<u8>, rng_entropy: &Vec<u8>) -> (r: ViewingKey)
        ensures
            r.0@ == viewing_key_text(seed@, rng_entropy@),
    {
        let mut rng = Prng::new(seed, rng_entropy);
        let bytes = rng.rand_bytes();
        let mut text = String::new();
        text.append("api_key_");
        let b64 = base64_encode(bytes.as_slice());
        text.append(b64.as_str());
        proof {
            assert(text@ =~= viewing_key_text(seed@, rng_entropy@));
        }
        ViewingKey(text)
    }

    /// The stored form of this key.
    pub fn to_hashed(&self) -> (r: Vec<u8>)
        ensures
            r@ == key_hash(self.0@),
            r@.len() == 32,
    {
        sha_256(string_bytes(&self.0))
    }
}

} // verus!
