//! The library's laws: properties that hold across handlers, each proved
//! from the handlers' contracts alone.

use vstd::prelude::*;

verus! {

use vstd::multiset::Multiset;
use crate::addr::CanonAddr;
use crate::addr::HumanAddr;
use crate::addr::KeyDirectory;
use crate::addr::contains_canon;
use crate::contract::MintCaller;
use crate::contract::canon_of_or_empty;
use crate::contract::mint_key;
use crate::contract::mint_post;
use crate::contract::register_listing_post;
use crate::contract::resolve_caller;
use crate::contract::retrieve_post;
use crate::contract::set_key_with_coll_post;
use crate::contract::update_admins_post;
use crate::contract::resolved_views;
use crate::error::GumballError;
use crate::msg::Env;
use crate::msg::Response;
use crate::pool::drawn_ids;
use crate::pool::lemma_draws_preserve_contents;
use crate::pool::lemma_pool_after_draws_len;
use crate::pool::pool_after_draws;
use crate::roster::canon_views;
use crate::roster::lemma_roster_add_existing;
use crate::roster::lemma_roster_remove_absent;
use crate::roster::lemma_roster_remove_membership;
use crate::state::State;
use crate::state::ids_view;

/// Pool density: in a well-formed state `available` counts the pool
/// exactly, so every slot index below `available` exists and none at or
/// above it does.  Every handler requires and preserves well-formedness.
pub proof fn lemma_pool_density(s: State)
    requires
        s.wf(),
    ensures
        s.pool_view().len() == s.counts.available,
        forall|i: int|
            0 <= i < s.counts.available ==> #[trigger] s.pool_view()[i] == s.pool@[i]@,
{
}

/// Draw exhaustiveness: drawing as many times as the pool holds yields a
/// permutation of the pool's contents, whatever the key and counter.
pub proof fn lemma_draw_exhaustiveness(pool: Seq<Seq<char>>, key: Seq<u8>, ctr: u64)
    ensures
        drawn_ids(pool, key, ctr, pool.len()).to_multiset() == pool.to_multiset(),
        drawn_ids(pool, key, ctr, pool.len()).len() == pool.len(),
{
    broadcast use vstd::multiset::group_multiset_axioms;

    lemma_draws_preserve_contents(pool, key, ctr, pool.len());
    lemma_pool_after_draws_len(pool, key, ctr, pool.len());
    let rem = pool_after_draws(pool, key, ctr, pool.len());
    rem.to_multiset_ensures();
    assert forall|x: Seq<char>| #[trigger] rem.to_multiset().count(x) == 0 by {
        assert(!rem.contains(x));
    }
    assert(rem.to_multiset() =~= Multiset::<Seq<char>>::empty());
    assert(drawn_ids(pool, key, ctr, pool.len()).to_multiset() =~= pool.to_multiset());
}

/// Draw exhaustiveness at the handler: a mint of exactly the whole pool
/// empties it, and the logged id list is a permutation of what the pool
/// held.
pub proof fn lemma_mint_drains_pool(
    pre: State,
    post: State,
    dir: KeyDirectory,
    env: Env,
    buyers: Seq<HumanAddr>,
    entropy: Seq<char>,
    resp: Response,
)
    requires
        pre.wf(),
        mint_post(pre, post, dir, env, buyers, entropy, Ok(resp)),
        buyers.len() == pre.counts.available,
    ensures
        post.pool_view().len() == 0,
        ids_view(resp.log@[0].values@).to_multiset() == pre.pool_view().to_multiset(),
{
    let c = choose|c: Seq<u8>| dir.canon_of(env.sender@) == Some(c);
    let key = mint_key(pre, env, c, entropy);
    lemma_pool_after_draws_len(pre.pool_view(), key, 0, buyers.len());
    lemma_draw_exhaustiveness(pre.pool_view(), key, 0);
}

/// Draw determinism under replay: the drawn ids are a function of the pool,
/// the persisted seed, and the transaction's entropy sources; two states
/// agreeing on pool and seed, minted under one environment, sender, and
/// entropy, distribute the same ids in the same order.
pub proof fn lemma_draw_determinism(
    s1: State,
    s2: State,
    env: Env,
    sender_canon: Seq<u8>,
    entropy: Seq<char>,
    n: nat,
)
    requires
        s1.pool_view() == s2.pool_view(),
        s1.prng_seed@ == s2.prng_seed@,
    ensures
        mint_key(s1, env, sender_canon, entropy) == mint_key(s2, env, sender_canon, entropy),
        drawn_ids(s1.pool_view(), mint_key(s1, env, sender_canon, entropy), 0, n) == drawn_ids(
            s2.pool_view(),
            mint_key(s2, env, sender_canon, entropy),
            0,
            n,
        ),
{
}

/// Counts law: a successful mint releases exactly one token per buyer and
/// the available count falls by the same number.  The exact release count
/// needs headroom below the `u64` ceiling, where the stored total
/// saturates.
pub proof fn lemma_counts_law(
    pre: State,
    post: State,
    dir: KeyDirectory,
    env: Env,
    buyers: Seq<HumanAddr>,
    entropy: Seq<char>,
    resp: Response,
)
    requires
        mint_post(pre, post, dir, env, buyers, entropy, Ok(resp)),
        pre.counts.released + buyers.len() <= u64::MAX,
    ensures
        post.counts.released - pre.counts.released == buyers.len(),
        post.counts.available == pre.counts.available - buyers.len(),
{
}

/// Whitelist single-use: a whitelist mint removes the caller from the
/// whitelist, and — the caller being neither a listing nor an admin — a
/// further mint by the same address can only be refused as unauthorized.
pub proof fn lemma_whitelist_single_use(
    pre: State,
    post: State,
    dir: KeyDirectory,
    env: Env,
    c: Seq<u8>,
    buyers: Seq<HumanAddr>,
    entropy: Seq<char>,
    resp: Response,
)
    requires
        mint_post(pre, post, dir, env, buyers, entropy, Ok(resp)),
        dir.canon_of(env.sender@) == Some(c),
        resolve_caller(pre, c) == Some(MintCaller::Whitelist),
        !contains_canon(pre.admins@, c),
    ensures
        !contains_canon(post.whitelist@, c),
        resolve_caller(post, c) is None,
        forall|post2: State, buyers2: Seq<HumanAddr>, entropy2: Seq<char>, resp2: Response|
            !#[trigger] mint_post(post, post2, dir, env, buyers2, entropy2, Ok(resp2)),
{
    crate::roster::lemma_contains_views(post.whitelist@, c);
    crate::roster::lemma_contains_views(pre.whitelist@, c);
    lemma_roster_remove_membership(canon_views(pre.whitelist@), seq![c], c);
    assert(seq![c].contains(c)) by {
        assert(seq![c][0] == c);
    }
}

/// Handshake exclusivity, first half: registering succeeds only when a
/// handshake is armed and the sender is the armed factory; an idle
/// handshake refuses with the dedicated error, a wrong sender likewise.
pub proof fn lemma_register_requires_armed_factory(
    pre: State,
    post: State,
    dir: KeyDirectory,
    sender: Seq<char>,
    listing: Seq<char>,
    r: Result<Response, GumballError>,
)
    requires
        register_listing_post(pre, post, dir, sender, listing, r),
    ensures
        r is Ok ==> (pre.expected_factory matches Some(f) && f@ == sender),
        pre.expected_factory is None ==> r == Err::<Response, GumballError>(
            GumballError::ExpectedFactoryAbsent,
        ),
        (pre.expected_factory matches Some(f) && f@ != sender) ==> r == Err::<
            Response,
            GumballError,
        >(GumballError::ExpectedFactoryMismatch),
{
}

/// Handshake exclusivity, second half: a successful registration disarms
/// the handshake, so registering a second time is refused, whoever calls.
pub proof fn lemma_register_at_most_once(
    pre: State,
    mid: State,
    post: State,
    dir: KeyDirectory,
    sender1: Seq<char>,
    listing1: Seq<char>,
    resp1: Response,
    sender2: Seq<char>,
    listing2: Seq<char>,
    r2: Result<Response, GumballError>,
)
    requires
        register_listing_post(pre, mid, dir, sender1, listing1, Ok(resp1)),
        register_listing_post(mid, post, dir, sender2, listing2, r2),
    ensures
        r2 == Err::<Response, GumballError>(GumballError::ExpectedFactoryAbsent),
        post == mid,
{
}

/// Primary-collection lock: the recovery operations refuse the primary
/// collection, whoever calls and whatever else holds.
pub proof fn lemma_primary_collection_lock(
    s: State,
    dir: KeyDirectory,
    env: Env,
    contract_addr: Seq<char>,
    contract_hash: Seq<char>,
    token_ids: Seq<String>,
    key: Seq<char>,
    r_retrieve: Result<Response, GumballError>,
    r_set_key: Result<Response, GumballError>,
)
    requires
        dir.human_of(s.collection.address@) == Some(contract_addr),
        retrieve_post(s, dir, env, contract_addr, contract_hash, token_ids, r_retrieve),
        set_key_with_coll_post(s, dir, env.sender@, contract_addr, contract_hash, key, r_set_key),
    ensures
        !(r_retrieve is Ok),
        !(r_set_key is Ok),
{
}

/// Admin idempotence, additions: adding only addresses that are already
/// admins leaves the admin list exactly as it was.
pub proof fn lemma_admin_add_idempotent(
    pre: State,
    post: State,
    dir: KeyDirectory,
    sender: Seq<char>,
    addresses: Seq<HumanAddr>,
    resp: Response,
)
    requires
        update_admins_post(pre, post, dir, sender, addresses, true, Ok(resp)),
        forall|k: int|
            0 <= k < addresses.len() ==> canon_views(pre.admins@).contains(
                canon_of_or_empty(dir, #[trigger] addresses[k]@),
            ),
    ensures
        canon_views(post.admins@) == canon_views(pre.admins@),
{
    let cs = resolved_views(dir, addresses);
    assert forall|k: int| 0 <= k < cs.len() implies canon_views(pre.admins@).contains(
        #[trigger] cs[k],
    ) by {
        assert(cs[k] == canon_of_or_empty(dir, addresses[k]@));
    }
    lemma_roster_add_existing(canon_views(pre.admins@), cs);
}

/// Admin idempotence, removals: removing only addresses that are not
/// admins leaves the admin list exactly as it was.
pub proof fn lemma_admin_remove_nonmember(
    pre: State,
    post: State,
    dir: KeyDirectory,
    sender: Seq<char>,
    addresses: Seq<HumanAddr>,
    resp: Response,
)
    requires
        update_admins_post(pre, post, dir, sender, addresses, false, Ok(resp)),
        forall|k: int|
            0 <= k < pre.admins@.len() ==> !resolved_views(dir, addresses).contains(
                #[trigger] canon_views(pre.admins@)[k],
            ),
    ensures
        canon_views(post.admins@) == canon_views(pre.admins@),
{
    lemma_roster_remove_absent(canon_views(pre.admins@), resolved_views(dir, addresses));
}

} // verus!

