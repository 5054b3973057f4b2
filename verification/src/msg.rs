//! Inbound messages, outbound messages, and answers.
//!
//! Cross-contract calls are values: a handler returns the messages to emit,
//! and the host delivers them after the transaction commits.  Every answer
//! the host serializes is padded through [`crate::padding::space_pad`]
//! before it leaves.

use vstd::prelude::*;

verus! {

use crate::addr::ContractInfo;
use crate::addr::HumanAddr;
use crate::snip721::NftDossierForListing;
use crate::snip721::Transfer;

/// The transaction environment the host hands every handler.
#[derive(Debug)]
pub struct Env {
    pub block_height: u64,
    pub block_time: u64,
    /// The transaction's index in its block, when the host supplies one.
    pub tx_index: Option<u64>,
    /// The message sender, already authenticated by the host.
    pub sender: HumanAddr,
    /// This contract's displayable address.
    pub contract_address: HumanAddr,
    /// This contract's code hash.
    pub contract_code_hash: String,
}

/// The instantiation message.
#[derive(Debug)]
pub struct InitMsg {
    /// Address and code hash of the collection contract.
    pub nft_contract: ContractInfo,
    /// Entropy for the first generator seed.
    pub entropy: String,
}

/// The executable endpoints.
#[derive(Debug)]
pub enum HandleMsg {
    /// The collection reports tokens transferred to this contract, to be
    /// added to the pool.
    BatchReceiveNft { from: HumanAddr, token_ids: Vec<String> },
    /// The single-token form of the same callback.
    ReceiveNft { sender: HumanAddr, token_id: String },
    /// Creates a fresh viewing key for the sender.
    CreateViewingKey { entropy: String },
    /// Sets the sender's viewing key to the given text.
    SetViewingKey { key: String, padding: Option<String> },
    /// Grants admin rights; admin only.
    AddAdmins { admins: Vec<HumanAddr> },
    /// Revokes admin rights; admin only.
    RemoveAdmins { admins: Vec<HumanAddr> },
    /// Whitelists addresses for one free mint each; admin only.
    AddToWhitelist { addresses: Vec<HumanAddr> },
    /// Removes addresses from the whitelist; admin only.
    RemoveFromWhitelist { addresses: Vec<HumanAddr> },
    /// Draws one token for each buyer, in order.
    Mint { buyers: Vec<HumanAddr>, entropy: String },
    /// Asks the factory to create a sale listing; admin only.
    CreateListing {
        label: String,
        payment_address: Option<HumanAddr>,
        factory_contract: ContractInfo,
        buy_contract: ContractInfo,
        batch_send: bool,
        price: u128,
        closes_at: u64,
        description: Option<String>,
        entropy: String,
    },
    /// The factory proves a created listing's identity.
    RegisterListing { listing_address: HumanAddr },
    /// Disallows further use of a named permit by the sender.
    RevokePermit { permit_name: String },
    /// Sets a viewing key with a collection other than the primary one, to
    /// recover tokens sent by mistake; admin only.
    SetViewingKeyWithCollection { nft_contract: ContractInfo, viewing_key: String },
    /// Retrieves tokens from a collection other than the primary one; admin
    /// only.
    RetrieveNft { nft_contract: ContractInfo, token_ids: Vec<String> },
}

/// A permit's permission scope.
#[derive(Clone, Copy, PartialEq, Eq, Structural, Debug)]
pub enum Permission {
    Owner,
    History,
    Balance,
    Allowance,
}

/// The signed body of a permit.
#[derive(Debug)]
pub struct PermitParams {
    /// The contracts the permit is addressed to; it applies here only if
    /// this contract's address is among them.
    pub allowed_tokens: Vec<HumanAddr>,
    pub permit_name: String,
    pub permissions: Vec<Permission>,
}

/// A permit whose signature the host has already checked: `signer` is the
/// address the host recovered from the signature.  The library checks
/// everything else: audience, revocation, scope, and role.
#[derive(Debug)]
pub struct Permit {
    pub params: PermitParams,
    pub signer: HumanAddr,
}

/// An address and viewing key making an authenticated query.
#[derive(Debug)]
pub struct ViewerInfo {
    pub address: HumanAddr,
    pub viewing_key: String,
}

/// The query endpoints.
#[derive(Debug)]
pub enum QueryMsg {
    /// The admin list; requires admin authentication by viewing key or
    /// permit.  A supplied permit wins over a viewer.
    Admins { viewer: Option<ViewerInfo>, permit: Option<Permit> },
    /// The example token's public information; public.
    NftListingDisplay {},
    /// Available and released counts; public.
    Counts {},
    /// The primary collection's address and code hash; public.
    NftContract {},
}

/// Answers of the executable endpoints.
#[derive(Debug)]
pub enum HandleAnswer {
    ViewingKey { key: String },
    AdminsList { admins: Vec<HumanAddr> },
    RevokePermit { status: String },
    AddToWhitelist { status: String },
    RemoveFromWhitelist { status: String },
    RetrieveNft { status: String },
}

/// Answers of the query endpoints.
#[derive(Debug)]
pub enum QueryAnswer {
    Admins { admins: Vec<HumanAddr> },
    NftListingDisplay {
        nft_info: NftDossierForListing,
        nft_contract_address: HumanAddr,
        mintable: bool,
    },
    Counts { available: u32, released: u64 },
    NftContract { code_hash: String, address: HumanAddr },
}

/// The listing the factory is asked to create.
#[derive(Debug)]
pub struct FactoryListingMsg {
    pub label: String,
    /// The admin who asked for the listing.
    pub creator: HumanAddr,
    pub payment_address: Option<HumanAddr>,
    /// The pool size at dispatch time; later deposits and draws do not
    /// change it.
    pub quantity_for_sale: u32,
    /// This contract, for the listing to call back.
    pub minter_contract: ContractInfo,
    pub option_id: String,
    pub buy_contract: ContractInfo,
    pub batch_send: bool,
    pub price: u128,
    pub closes_at: u64,
    pub description: Option<String>,
    pub entropy: String,
    pub nft_contract_address: HumanAddr,
    pub implements_register_listing: bool,
}

/// An outbound cross-contract message, delivered by the host after this
/// transaction commits.  Each carries the block size its payload is padded
/// to on the wire.
#[derive(Debug)]
pub enum OutboundMsg {
    /// Asks the collection to report transfers through BatchReceiveNft.
    RegisterReceive {
        contract: ContractInfo,
        /// This contract's code hash, for the callback.
        minter_code_hash: String,
        also_implements_batch_receive: bool,
        block_size: usize,
    },
    /// Transfers tokens out of this contract's custody.
    BatchTransfer { contract: ContractInfo, transfers: Vec<Transfer>, block_size: usize },
    /// Sets a viewing key with another collection.
    SetViewingKey { contract: ContractInfo, key: String, block_size: usize },
    /// Asks the factory to create a listing.
    CreateMinterListing { factory: ContractInfo, msg: FactoryListingMsg, block_size: usize },
}

/// One log attribute; a list-valued attribute is rendered by the host.
#[derive(Debug)]
pub struct LogAttribute {
    pub key: String,
    pub values: Vec<String>,
}

/// What a handler hands the host: messages to emit, log attributes, an
/// answer to serialize and pad, and possibly a dossier to fetch.
#[derive(Debug)]
pub struct Response {
    pub messages: Vec<OutboundMsg>,
    pub log: Vec<LogAttribute>,
    pub data: Option<HandleAnswer>,
    /// When present, the host queries the primary collection for this
    /// token's dossier within the same transaction and hands the answer to
    /// [`crate::contract::set_example`], folding a failed query to the
    /// empty dossier.
    pub dossier_fetch: Option<String>,
}

impl Response {
    /// A response with no messages, no log, no data.
    pub fn empty() -> (r: Response)
        ensures
            r.messages@.len() == 0,
            r.log@.len() == 0,
            r.data is None,
            r.dossier_fetch is None,
    {
        Response {
            messages: Vec::new(),
            log: Vec::new(),
            data: Option::None,
            dossier_fetch: Option::None,
        }
    }
}

} // verus!
