//! The contract's persistent state, as one explicit value.
//!
//! The host keeps this state in a byte-keyed store and reloads it for every
//! transaction; the library works on the loaded value and the host commits
//! it only when a handler succeeds, so an error implies no state change.

use vstd::prelude::*;

verus! {

use crate::addr::CanonAddr;
use crate::addr::HumanAddr;
use crate::addr::StoreContractInfo;
use crate::snip721::StoredNftDossierForListing;

/// How many tokens are available and how many were ever released.
#[derive(Clone, Copy, PartialEq, Eq, Structural, Debug)]
pub struct Counts {
    pub available: u32,
    pub released: u64,
}

/// The views of a list of token ids.
pub open spec fn ids_view(ids: Seq<String>) -> Seq<Seq<char>> {
    ids.map_values(|s: String| s@)
}

/// The viewing-key hash recorded for a canonical address: the first matching
/// entry decides.
pub open spec fn vk_of(entries: Seq<(CanonAddr, Vec<u8>)>, addr: Seq<u8>) -> Option<Seq<u8>>
    decreases entries.len(),
{
    if entries.len() == 0 {
        None
    } else if entries[0].0@ == addr {
        Some(entries[0].1@)
    } else {
        vk_of(entries.drop_first(), addr)
    }
}

/// Whether the permit named `name` has been revoked by `signer`.
pub open spec fn revoked_contains(
    entries: Seq<(HumanAddr, String)>,
    signer: Seq<char>,
    name: Seq<char>,
) -> bool {
    exists|i: int|
        0 <= i < entries.len() && entries[i].0@ == signer && entries[i].1@ == name
}

/// Everything the contract persists.
pub struct State {
    /// This contract's own canonical address, the audience of permits.
    pub my_address: CanonAddr,
    /// The primary collection: the NFT contract whose tokens fill the pool.
    /// Immutable after instantiation.
    pub collection: StoreContractInfo,
    /// The admin list; the instantiator is its first member.
    pub admins: Vec<CanonAddr>,
    /// Addresses allowed one free mint each.
    pub whitelist: Vec<CanonAddr>,
    /// Listing contracts registered through the factory handshake.
    pub listings: Vec<CanonAddr>,
    /// Pool size and lifetime released count.
    pub counts: Counts,
    /// The dense token pool: the host's store keys each slot by its index,
    /// and slot `i` is entry `i` here.
    pub pool: Vec<String>,
    /// The persisted 32-byte generator seed, rewritten after every mint.
    pub prng_seed: Vec<u8>,
    /// The factory a CreateListing was sent to and whose RegisterListing is
    /// awaited; absent when no handshake is outstanding.
    pub expected_factory: Option<HumanAddr>,
    /// A cached dossier of the first token deposited into an empty pool.
    pub example: Option<StoredNftDossierForListing>,
    /// Viewing-key hashes by canonical address; the first entry for an
    /// address decides.
    pub viewing_keys: Vec<(CanonAddr, Vec<u8>)>,
    /// Revoked permits, as (signer, permit name) pairs.
    pub revoked_permits: Vec<(HumanAddr, String)>,
}

impl State {
    /// Well-formedness: `available` counts the pool exactly, every slot in
    /// `[0, available)` exists, and the seed is one digest wide.  Every
    /// handler preserves this.
    pub open spec fn wf(&self) -> bool {
        &&& self.counts.available == self.pool@.len()
        &&& self.prng_seed@.len() == 32
    }

    /// The pool's contents, as token-id views.
    pub open spec fn pool_view(&self) -> Seq<Seq<char>> {
        ids_view(self.pool@)
    }
}

} // verus!
