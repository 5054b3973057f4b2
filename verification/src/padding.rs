//! Fixed-block padding of response bodies.
//!
//! Every payload that leaves the contract is padded with trailing spaces to
//! the nearest multiple of [`crate::BLOCK_SIZE`] bytes, so that the length of
//! a response on the public ledger does not betray its content.

use vstd::prelude::*;

verus! {

use crate::BLOCK_SIZE;

/// The number of bytes a body of length `len` has once padded to a multiple
/// of `block` bytes: the least multiple of `block` that is at least `len`.
pub open spec fn padded_len(len: nat, block: nat) -> nat
    recommends
        block > 0,
{
    if len % block == 0 {
        len
    } else {
        (len + (block - len % block)) as nat
    }
}

/// A padded body keeps the original bytes as a prefix and fills the rest
/// with ASCII spaces.
pub open spec fn is_padded_body(body: Seq<u8>, padded: Seq<u8>, block: nat) -> bool {
    &&& padded.len() == padded_len(body.len(), block)
    &&& padded.subrange(0, body.len() as int) == body
    &&& forall|i: int| body.len() <= i < padded.len() ==> padded[i] == 32u8
}

/// Pads `body` in place with spaces up to the next multiple of
/// [`BLOCK_SIZE`] bytes.  A body already on a block boundary (the empty body
/// included) is left unchanged.
pub fn space_pad(body: &mut Vec<u8>)
    requires
        old(body)@.len() + BLOCK_SIZE < usize::MAX,
    ensures
        is_padded_body(old(body)@, final(body)@, BLOCK_SIZE as nat),
        final(body)@.len() % (BLOCK_SIZE as nat) == 0,
{
    let len = body.len();
    let rem: usize = len % BLOCK_SIZE;
    if rem == 0 {
        assert(final(body)@.subrange(0, old(body)@.len() as int) =~= old(body)@);
        return ;
    }
    let missing: usize = BLOCK_SIZE - rem;
    let mut i: usize = 0;
    while i < missing
        invariant
            i <= missing,
            missing == BLOCK_SIZE - old(body)@.len() % (BLOCK_SIZE as nat),
            0 < missing < BLOCK_SIZE,
            body@.len() == old(body)@.len() + i,
            body@.subrange(0, old(body)@.len() as int) =~= old(body)@,
            forall|j: int| old(body)@.len() <= j < body@.len() ==> body@[j] == 32u8,
        decreases missing - i,
    {
        body.push(32u8);
        assert(body@.subrange(0, old(body)@.len() as int) =~= old(body)@);
        i = i + 1;
    }
    assert(final(body)@.len() == padded_len(old(body)@.len(), BLOCK_SIZE as nat));
}

/// The padding law: a padded body's length is congruent to zero modulo the
/// block size, whatever the body was.
pub proof fn lemma_padded_len_multiple(len: nat, block: nat)
    requires
        block > 0,
    ensures
        padded_len(len, block) % block == 0,
        len <= padded_len(len, block) < len + block,
{
    let r = len % block;
    vstd::arithmetic::div_mod::lemma_mod_division_less_than_divisor(len as int, block as int);
    if r != 0 {
        let q = len as int / block as int;
        vstd::arithmetic::div_mod::lemma_fundamental_div_mod(len as int, block as int);
        assert(padded_len(len, block) == (q + 1) * block) by (nonlinear_arith)
            requires
                len == q * block + r,
                padded_len(len, block) == len + block - r,
        ;
        vstd::arithmetic::div_mod::lemma_mod_multiples_basic(q + 1, block as int);
    }
}

} // verus!
