//! The token pool and the draw.
//!
//! The pool is a dense array of token ids.  A draw picks a 64-bit number
//! from the generator, reduces it modulo the pool size, hands out the token
//! in the winning slot, and closes the hole by swapping the last slot in.
//! The whole run of a mint is a function of the pool, the generator key and
//! the starting counter, captured by [`drawn_ids`] and [`pool_after_draws`].

use vstd::prelude::*;

verus! {

use vstd::seq_lib::to_multiset_build;
use vstd::seq_lib::to_multiset_remove;
use vstd::seq_lib::to_multiset_update;
use vstd::multiset::Multiset;
use crate::rng::Prng;
use crate::rng::prng_draw;
use crate::state::ids_view;

/// The slot a draw at counter `ctr` wins, in a pool of `avail` tokens.
pub open spec fn draw_slot(key: Seq<u8>, ctr: u64, avail: nat) -> int
    recommends
        avail > 0,
{
    (prng_draw(key, ctr) as int) % (avail as int)
}

/// A pool after one swap-remove at slot `w`: the last token fills the
/// winning slot and the last slot is dropped.
pub open spec fn swap_removed(pool: Seq<Seq<char>>, w: int) -> Seq<Seq<char>>
    recommends
        0 <= w < pool.len(),
{
    pool.update(w, pool.last()).drop_last()
}

/// The pool left after `n` draws keyed by `key`, counting from `ctr`.
pub open spec fn pool_after_draws(pool: Seq<Seq<char>>, key: Seq<u8>, ctr: u64, n: nat) -> Seq<
    Seq<char>,
>
    decreases n,
{
    if n == 0 {
        pool
    } else {
        let prev = pool_after_draws(pool, key, ctr, (n - 1) as nat);
        swap_removed(prev, draw_slot(key, (ctr + n - 1) as u64, prev.len()))
    }
}

/// The ids handed out by `n` draws keyed by `key`, counting from `ctr`, in
/// draw order.
pub open spec fn drawn_ids(pool: Seq<Seq<char>>, key: Seq<u8>, ctr: u64, n: nat) -> Seq<Seq<char>>
    decreases n,
{
    if n == 0 {
        Seq::empty()
    } else {
        let prev = pool_after_draws(pool, key, ctr, (n - 1) as nat);
        drawn_ids(pool, key, ctr, (n - 1) as nat).push(
            prev[draw_slot(key, (ctr + n - 1) as u64, prev.len())],
        )
    }
}

/// Each draw shrinks the pool by exactly one.
pub proof fn lemma_pool_after_draws_len(pool: Seq<Seq<char>>, key: Seq<u8>, ctr: u64, n: nat)
    requires
        n <= pool.len(),
    ensures
        pool_after_draws(pool, key, ctr, n).len() == pool.len() - n,
        drawn_ids(pool, key, ctr, n).len() == n,
    decreases n,
{
    if n > 0 {
        lemma_pool_after_draws_len(pool, key, ctr, (n - 1) as nat);
        let prev = pool_after_draws(pool, key, ctr, (n - 1) as nat);
        vstd::arithmetic::div_mod::lemma_mod_division_less_than_divisor(
            prng_draw(key, (ctr + n - 1) as u64) as int,
            prev.len() as int,
        );
    }
}

/// One swap-remove takes exactly the winning token out of the pool: putting
/// it back restores the pool's contents.
pub proof fn lemma_swap_removed_multiset(pool: Seq<Seq<char>>, w: int)
    requires
        0 <= w < pool.len(),
    ensures
        swap_removed(pool, w).to_multiset().insert(pool[w]) =~= pool.to_multiset(),
{
    broadcast use vstd::multiset::group_multiset_axioms;

    let q = pool.update(w, pool.last());
    to_multiset_update(pool, w, pool.last());
    assert(q.drop_last() =~= q.remove(q.len() - 1));
    to_multiset_remove(q, q.len() - 1);
    assert(q[q.len() - 1] == pool.last());
    pool.to_multiset_ensures();
    assert(pool.contains(pool.last()));
    assert(pool.contains(pool[w]));
    assert(pool.to_multiset().count(pool.last()) > 0);
    assert(pool.to_multiset().count(pool[w]) > 0);
}

/// The draws are exhaustive: after any number of draws, the drawn ids and
/// the remaining pool together are exactly the original pool's contents.
/// In particular, draining the pool yields a permutation of what was
/// deposited.
pub proof fn lemma_draws_preserve_contents(pool: Seq<Seq<char>>, key: Seq<u8>, ctr: u64, n: nat)
    requires
        n <= pool.len(),
    ensures
        pool_after_draws(pool, key, ctr, n).to_multiset().add(
            drawn_ids(pool, key, ctr, n).to_multiset(),
        ) =~= pool.to_multiset(),
    decreases n,
{
    broadcast use vstd::multiset::group_multiset_axioms;

    if n == 0 {
        let d = drawn_ids(pool, key, ctr, 0);
        d.to_multiset_ensures();
        assert forall|x: Seq<char>| #[trigger] d.to_multiset().count(x) == 0 by {
            assert(!d.contains(x));
        }
        assert(d.to_multiset() =~= Multiset::<Seq<char>>::empty());
    } else {
        lemma_draws_preserve_contents(pool, key, ctr, (n - 1) as nat);
        lemma_pool_after_draws_len(pool, key, ctr, (n - 1) as nat);
        let prev = pool_after_draws(pool, key, ctr, (n - 1) as nat);
        let prev_ids = drawn_ids(pool, key, ctr, (n - 1) as nat);
        let w = draw_slot(key, (ctr + n - 1) as u64, prev.len());
        vstd::arithmetic::div_mod::lemma_mod_division_less_than_divisor(
            prng_draw(key, (ctr + n - 1) as u64) as int,
            prev.len() as int,
        );
        lemma_swap_removed_multiset(prev, w);
        to_multiset_build(prev_ids, prev[w]);
        assert(pool_after_draws(pool, key, ctr, n).to_multiset().add(
            drawn_ids(pool, key, ctr, n).to_multiset(),
        ) =~= prev.to_multiset().add(prev_ids.to_multiset()));
    }
}

/// Draws one token: reduces a fresh 64-bit draw modulo the pool size, takes
/// the winner out, and closes the hole with the last slot.
pub fn draw_token(pool: &mut Vec<String>, rng: &mut Prng) -> (id: String)
    requires
        old(pool)@.len() > 0,
        old(pool)@.len() <= u32::MAX,
        old(rng).counter < u64::MAX,
    ensures
        final(rng).key@ == old(rng).key@,
        final(rng).counter == old(rng).counter + 1,
        id@ == ids_view(old(pool)@)[draw_slot(
            old(rng).key@,
            old(rng).counter,
            old(pool)@.len() as nat,
        )],
        ids_view(final(pool)@) == swap_removed(
            ids_view(old(pool)@),
            draw_slot(old(rng).key@, old(rng).counter, old(pool)@.len() as nat),
        ),
{
    let avail: u64 = pool.len() as u64;
    let w64 = rng.next_u64() % avail;
    let w = w64 as usize;
    proof {
        assert(w64 as int == draw_slot(old(rng).key@, old(rng).counter, old(pool)@.len() as nat));
        vstd::arithmetic::div_mod::lemma_mod_division_less_than_divisor(
            prng_draw(old(rng).key@, old(rng).counter) as int,
            avail as int,
        );
    }
    let id = pool.swap_remove(w);
    proof {
        let p = old(pool)@;
        let wi = w as int;
        assert(ids_view(pool@) =~= swap_removed(ids_view(p), wi));
    }
    id
}

} // verus!
