//! Lists of canonical addresses: the admin list, the whitelist, and the
//! listing registry.
//!
//! The admin list keeps its order; additions are idempotent (an address
//! already present is not appended again) and removals filter every
//! occurrence, so no-op edits leave the list exactly as it was.

use vstd::prelude::*;

verus! {

use crate::addr::CanonAddr;
use crate::addr::canon_list_contains;
use crate::addr::contains_canon;

/// The byte views of a list of canonical addresses.
pub open spec fn canon_views(list: Seq<CanonAddr>) -> Seq<Seq<u8>> {
    list.map_values(|a: CanonAddr| a@)
}

/// Membership on a list and on its views agree.
pub proof fn lemma_contains_views(list: Seq<CanonAddr>, c: Seq<u8>)
    ensures
        contains_canon(list, c) <==> canon_views(list).contains(c),
{
    if contains_canon(list, c) {
        let i = choose|i: int| 0 <= i < list.len() && list[i]@ == c;
        assert(canon_views(list)[i] == c);
    }
    if canon_views(list).contains(c) {
        let i = choose|i: int| 0 <= i < canon_views(list).len() && canon_views(list)[i] == c;
        assert(list[i]@ == c);
    }
}

/// A list after appending each address of `cs`, in order, skipping those
/// already present.
pub open spec fn roster_add(list: Seq<Seq<u8>>, cs: Seq<Seq<u8>>) -> Seq<Seq<u8>>
    decreases cs.len(),
{
    if cs.len() == 0 {
        list
    } else {
        let next = if list.contains(cs[0]) {
            list
        } else {
            list.push(cs[0])
        };
        roster_add(next, cs.drop_first())
    }
}

/// A list after filtering out every address that occurs in `cs`.
pub open spec fn roster_remove(list: Seq<Seq<u8>>, cs: Seq<Seq<u8>>) -> Seq<Seq<u8>> {
    list.filter(|a: Seq<u8>| !cs.contains(a))
}

/// Appends each address of `cs` that the list does not already hold.
pub fn roster_add_exec(list: &mut Vec<CanonAddr>, cs: &Vec<CanonAddr>)
    ensures
        canon_views(final(list)@) == roster_add(canon_views(old(list)@), canon_views(cs@)),
{
    let mut i: usize = 0;
    proof {
        assert(canon_views(cs@).skip(0) =~= canon_views(cs@));
    }
    while i < cs.len()
        invariant
            i <= cs@.len(),
            roster_add(canon_views(old(list)@), canon_views(cs@)) == roster_add(
                canon_views(list@),
                canon_views(cs@).skip(i as int),
            ),
        decreases cs@.len() - i,
    {
        let ghost pre = canon_views(list@);
        proof {
            assert(canon_views(cs@).skip(i as int)[0] == cs@[i as int]@);
            assert(canon_views(cs@).skip(i as int).drop_first() =~= canon_views(cs@).skip(i + 1));
            lemma_contains_views(list@, cs@[i as int]@);
        }
        if !canon_list_contains(list, &cs[i]) {
            list.push(cs[i].dup());
            proof {
                assert(canon_views(list@) =~= pre.push(cs@[i as int]@));
            }
        }
        i = i + 1;
    }
}

/// Removes every occurrence of every address of `cs` from the list.
pub fn roster_remove_exec(list: &mut Vec<CanonAddr>, cs: &Vec<CanonAddr>)
    ensures
        canon_views(final(list)@) == roster_remove(canon_views(old(list)@), canon_views(cs@)),
{
    let mut out: Vec<CanonAddr> = Vec::new();
    let mut i: usize = 0;
    proof {
        reveal(Seq::filter);
        assert(canon_views(out@) =~= Seq::<Seq<u8>>::empty());
        assert(canon_views(list@).subrange(0, 0) =~= Seq::<Seq<u8>>::empty());
        assert(Seq::<Seq<u8>>::empty().filter(|a: Seq<u8>| !canon_views(cs@).contains(a))
            =~= Seq::<Seq<u8>>::empty());
    }
    while i < list.len()
        invariant
            i <= list@.len(),
            canon_views(out@) == roster_remove(
                canon_views(list@).subrange(0, i as int),
                canon_views(cs@),
            ),
        decreases list@.len() - i,
    {
        let ghost pre = canon_views(out@);
        let ghost lv = canon_views(list@);
        proof {
            reveal(Seq::filter);
            assert(lv.subrange(0, i + 1).drop_last() =~= lv.subrange(0, i as int));
            assert(lv.subrange(0, i + 1).last() == lv[i as int]);
            lemma_contains_views(cs@, list@[i as int]@);
        }
        if !canon_list_contains(cs, &list[i]) {
            out.push(list[i].dup());
            proof {
                assert(canon_views(out@) =~= pre.push(lv[i as int]));
            }
        }
        i = i + 1;
    }
    proof {
        assert(canon_views(list@).subrange(0, list@.len() as int) =~= canon_views(list@));
    }
    *list = out;
}

/// Adding only addresses the list already holds leaves it untouched.
pub proof fn lemma_roster_add_existing(list: Seq<Seq<u8>>, cs: Seq<Seq<u8>>)
    requires
        forall|k: int| 0 <= k < cs.len() ==> list.contains(#[trigger] cs[k]),
    ensures
        roster_add(list, cs) == list,
    decreases cs.len(),
{
    if cs.len() > 0 {
        assert(list.contains(cs[0]));
        lemma_roster_add_existing(list, cs.drop_first());
    }
}

/// Removing addresses the list does not hold leaves it untouched.
pub proof fn lemma_roster_remove_absent(list: Seq<Seq<u8>>, cs: Seq<Seq<u8>>)
    requires
        forall|k: int| 0 <= k < list.len() ==> !cs.contains(#[trigger] list[k]),
    ensures
        roster_remove(list, cs) == list,
    decreases list.len(),
{
    reveal(Seq::filter);
    if list.len() > 0 {
        lemma_roster_remove_absent(list.drop_last(), cs);
        assert(!cs.contains(list.last()));
        assert(roster_remove(list, cs) =~= list);
    }
}

/// What membership a removal leaves behind: the old members not named for
/// removal, nothing else.
pub proof fn lemma_roster_remove_membership(list: Seq<Seq<u8>>, cs: Seq<Seq<u8>>, c: Seq<u8>)
    ensures
        roster_remove(list, cs).contains(c) <==> (list.contains(c) && !cs.contains(c)),
    decreases list.len(),
{
    broadcast use vstd::seq_lib::group_seq_properties;

    reveal(Seq::filter);
    if list.len() > 0 {
        lemma_roster_remove_membership(list.drop_last(), cs, c);
        assert(roster_remove(list, cs) == if !cs.contains(list.last()) {
            roster_remove(list.drop_last(), cs).push(list.last())
        } else {
            roster_remove(list.drop_last(), cs)
        });
        if list.contains(c) && !list.drop_last().contains(c) {
            let i = choose|i: int| 0 <= i < list.len() && list[i] == c;
            if i < list.len() - 1 {
                assert(list.drop_last()[i] == c);
            }
            assert(list.last() == c);
        }
        if list.drop_last().contains(c) {
            let i = choose|i: int|
                0 <= i < list.drop_last().len() && list.drop_last()[i] == c;
            assert(list[i] == c);
        }
        if roster_remove(list.drop_last(), cs).push(list.last()).contains(c) && c != list.last() {
            let q = roster_remove(list.drop_last(), cs);
            let i = choose|i: int| 0 <= i < q.push(list.last()).len() && q.push(list.last())[i]
                == c;
            assert(q[i] == c);
        }
        if roster_remove(list.drop_last(), cs).contains(c) {
            let q = roster_remove(list.drop_last(), cs);
            let i = choose|i: int| 0 <= i < q.len() && q[i] == c;
            assert(q.push(list.last())[i] == c);
        }
    }
}

} // verus!
