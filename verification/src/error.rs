//! The error taxonomy of the contract.
//!
//! Every handler aborts with one of these kinds; the host rolls the
//! transaction back, so an error implies no state change.

use vstd::prelude::*;

verus! {

/// Why a handler or query refused to act.
#[derive(Clone, Copy, Debug, PartialEq, Eq, Structural)]
pub enum GumballError {
    /// The caller lacks the role the endpoint demands, a viewing key did not
    /// match, or a permit did not carry the owner scope.
    Unauthorized,
    /// A token-receive callback arrived from an address other than the
    /// primary collection.
    SpoofedSender,
    /// A recovery operation named the primary collection.
    NotPrimaryCollection,
    /// The pool would outgrow its u32 index space.
    PoolFull,
    /// A draw found a missing pool slot.
    PoolCorrupt,
    /// More mints were requested than tokens are available.
    InsufficientPool { requested: u32, available: u32 },
    /// A whitelisted caller asked for a batch of any size other than one.
    WhitelistBatchSizeInvalid,
    /// RegisterListing arrived while no CreateListing was outstanding.
    ExpectedFactoryAbsent,
    /// RegisterListing arrived from an address other than the armed factory.
    ExpectedFactoryMismatch,
    /// A singleton record was missing or malformed.
    CorruptState,
    /// An address could not be resolved between its displayable and
    /// canonical forms.
    AddrUnresolved,
}

} // verus!
