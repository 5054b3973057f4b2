//! The draw engine's random number generator: a keyed PRNG over SHA-256.
//!
//! The key is the digest of a persisted 32-byte seed and per-transaction
//! entropy; each output block is the digest of the key and a running
//! counter.  Every output is a function of `(seed, entropy, position)`, so a
//! draw is repeatable under ledger replay, while a submitter who does not
//! know the persisted seed cannot predict it.

use vstd::prelude::*;

verus! {

use vstd::bytes::spec_u64_to_le_bytes;
use vstd::bytes::spec_u64_from_le_bytes;
use vstd::bytes::u64_to_le_bytes;
use vstd::bytes::u64_from_le_bytes;
use vstd::slice::slice_subrange;
use crate::crypto::sha256_of;
use crate::crypto::sha_256;

/// Appends `src` to `dst`.
pub fn append_bytes(dst: &mut Vec<u8>, src: &[u8])
    ensures
        final(dst)@ == old(dst)@ + src@,
{
    let mut i: usize = 0;
    proof {
        assert(dst@ =~= old(dst)@ + src@.subrange(0, 0));
    }
    while i < src.len()
        invariant
            i <= src@.len(),
            dst@ == old(dst)@ + src@.subrange(0, i as int),
        decreases src@.len() - i,
    {
        dst.push(src[i]);
        proof {
            assert(dst@ =~= old(dst)@ + src@.subrange(0, i + 1));
        }
        i = i + 1;
    }
    proof {
        assert(src@.subrange(0, src@.len() as int) =~= src@);
    }
}

/// The generator's key for a given seed and per-transaction entropy.
pub open spec fn prng_key(seed: Seq<u8>, entropy: Seq<u8>) -> Seq<u8> {
    sha256_of(seed + entropy)
}

/// The 32-byte output block at position `counter`.
pub open spec fn prng_block(key: Seq<u8>, counter: u64) -> Seq<u8> {
    sha256_of(key + spec_u64_to_le_bytes(counter))
}

/// The 64-bit draw at position `counter`: the first eight output bytes,
/// read little-endian.
pub open spec fn prng_draw(key: Seq<u8>, counter: u64) -> u64 {
    spec_u64_from_le_bytes(prng_block(key, counter).subrange(0, 8))
}

/// A keyed deterministic generator.  `counter` is the position of the next
/// output block.
pub struct Prng {
    pub key: Vec<u8>,
    pub counter: u64,
}

impl Prng {
    /// Keys a fresh generator from a persisted seed and per-transaction
    /// entropy.
    pub fn new(seed: &Vec<u8>, entropy: &Vec<u8>) -> (r: Prng)
        ensures
            r.key@ == prng_key(seed@, entropy@),
            r.key@.len() == 32,
            r.counter == 0,
    {
        let mut material = crate::addr::clone_bytes(seed);
        append_bytes(&mut material, entropy.as_slice());
        Prng { key: sha_256(material.as_slice()), counter: 0 }
    }

    /// The next 64-bit draw.
    pub fn next_u64(&mut self) -> (r: u64)
        requires
            old(self).counter < u64::MAX,
        ensures
            r == prng_draw(old(self).key@, old(self).counter),
            final(self).key@ == old(self).key@,
            final(self).counter == old(self).counter + 1,
    {
        let block = self.next_block();
        u64_from_le_bytes(slice_subrange(block.as_slice(), 0, 8))
    }

    /// The next 32 fresh output bytes.
    pub fn rand_bytes(&mut self) -> (r: Vec<u8>)
        requires
            old(self).counter < u64::MAX,
        ensures
            r@ == prng_block(old(self).key@, old(self).counter),
            r@.len() == 32,
            final(self).key@ == old(self).key@,
            final(self).counter == old(self).counter + 1,
    {
        self.next_block()
    }

    fn next_block(&mut self) -> (r: Vec<u8>)
        requires
            old(self).counter < u64::MAX,
        ensures
            r@ == prng_block(old(self).key@, old(self).counter),
            r@.len() == 32,
            final(self).key@ == old(self).key@,
            final(self).counter == old(self).counter + 1,
    {
        let mut material = crate::addr::clone_bytes(&self.key);
        let ctr = u64_to_le_bytes(self.counter);
        append_bytes(&mut material, ctr.as_slice());
        let block = sha_256(material.as_slice());
        self.counter = self.counter + 1;
        block
    }
}

/// The entropy material a transaction contributes to a mint: the block
/// height and time, the transaction index when the host supplies one, the
/// caller's canonical address, and the caller-supplied entropy bytes.
pub open spec fn entropy_material(
    height: u64,
    time: u64,
    tx_index: Option<u64>,
    sender: Seq<u8>,
    entropy: Seq<u8>,
) -> Seq<u8> {
    spec_u64_to_le_bytes(height) + spec_u64_to_le_bytes(time) + (match tx_index {
        Some(t) => spec_u64_to_le_bytes(t),
        None => Seq::<u8>::empty(),
    }) + sender + entropy
}

/// The per-transaction entropy: the digest of the material above.
pub open spec fn extended_entropy(
    height: u64,
    time: u64,
    tx_index: Option<u64>,
    sender: Seq<u8>,
    entropy: Seq<u8>,
) -> Seq<u8> {
    sha256_of(entropy_material(height, time, tx_index, sender, entropy))
}

/// Mixes the environment's entropy sources into a 32-byte string.
pub fn extend_entropy(
    height: u64,
    time: u64,
    tx_index: Option<u64>,
    sender: &[u8],
    entropy: &[u8],
) -> (r: Vec<u8>)
    ensures
        r@ == extended_entropy(height, time, tx_index, sender@, entropy@),
        r@.len() == 32,
{
    let mut material = u64_to_le_bytes(height);
    let time_bytes = u64_to_le_bytes(time);
    append_bytes(&mut material, time_bytes.as_slice());
    match tx_index {
        Some(t) => {
            let tx_bytes = u64_to_le_bytes(t);
            append_bytes(&mut material, tx_bytes.as_slice());
        },
        None => {
            proof {
                assert(material@ + Seq::<u8>::empty() =~= material@);
            }
        },
    }
    append_bytes(&mut material, sender);
    append_bytes(&mut material, entropy);
    sha_256(material.as_slice())
}

} // verus!
