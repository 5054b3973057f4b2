//! A randomized NFT distributor ("gumball machine") for a deterministic,
//! transaction-driven ledger.
//!
//! Operators deposit a pool of token ids held by an external collection
//! contract; callers then draw tokens one at a time, uniformly at random from
//! the remaining pool, until it is exhausted.  The library holds the verified
//! core: the dense swap-remove token pool, the deterministic draw engine, the
//! authorization lattice (admins, whitelist, registered listings), the
//! two-step listing handshake with a factory contract, and the fixed-block
//! padding discipline on response bodies.  Host plumbing (key-value
//! persistence, cross-contract message delivery, signature checks) stays
//! outside; every handler works on an explicit [`state::State`] value and
//! returns the messages to emit.

use vstd::prelude::*;

pub mod addr;
pub mod contract;
pub mod crypto;
pub mod error;
pub mod laws;
pub mod msg;
pub mod padding;
pub mod pool;
pub mod rng;
pub mod roster;
pub mod snip721;
pub mod state;
pub mod vkey;

verus! {

/// Every response body and outbound message payload is padded to a multiple
/// of this many bytes.
pub const BLOCK_SIZE: usize = 256;

} // verus!
