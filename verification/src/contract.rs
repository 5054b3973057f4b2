//! The handlers: instantiation, the executable endpoints, and the queries.
//!
//! Every handler takes the loaded [`State`], the transaction's
//! [`KeyDirectory`], and plain message values, and returns either a
//! [`Response`] or an error.  On an error the state value is left exactly as
//! it was, mirroring the host's transaction rollback.

use vstd::prelude::*;

verus! {

use vstd::string::StringExecFns;
use vstd::utf8::encode_utf8;
use crate::BLOCK_SIZE;
use crate::addr::CanonAddr;
use crate::addr::ContractInfo;
use crate::addr::HumanAddr;
use crate::addr::KeyDirectory;
use crate::addr::canon_list_contains;
use crate::addr::contains_canon;
use crate::crypto::base64_encode;
use crate::crypto::base64_of;
use crate::crypto::sha256_of;
use crate::crypto::sha_256;
use crate::crypto::string_bytes;
use crate::error::GumballError;
use crate::msg::Env;
use crate::msg::FactoryListingMsg;
use crate::msg::HandleAnswer;
use crate::msg::HandleMsg;
use crate::msg::InitMsg;
use crate::msg::LogAttribute;
use crate::msg::OutboundMsg;
use crate::msg::Permission;
use crate::msg::Permit;
use crate::msg::QueryAnswer;
use crate::msg::QueryMsg;
use crate::msg::Response;
use crate::msg::ViewerInfo;
use crate::pool::drawn_ids;
use crate::pool::pool_after_draws;
use crate::rng::Prng;
use crate::rng::extend_entropy;
use crate::rng::extended_entropy;
use crate::rng::prng_block;
use crate::rng::prng_key;
use crate::roster::canon_views;
use crate::roster::lemma_contains_views;
use crate::roster::roster_add;
use crate::roster::roster_remove;
use crate::snip721::NftDossierForListing;
use crate::snip721::Transfer;
use crate::snip721::add_transfer;
use crate::snip721::coalesced_transfers;
use crate::snip721::dossier_human_rel;
use crate::snip721::dossier_humanizable;
use crate::snip721::dossier_resolvable;
use crate::snip721::dossier_stored_rel;
use crate::snip721::transfers_view;
use crate::state::Counts;
use crate::state::State;
use crate::state::ids_view;
use crate::state::revoked_contains;
use crate::state::vk_of;
use crate::vkey::ViewingKey;
use crate::vkey::key_hash;
use crate::vkey::viewing_key_text;

/// The caller class a mint resolves, in priority order: a registered
/// listing, a whitelisted address, an admin.
#[derive(Clone, Copy, PartialEq, Eq, Structural, Debug)]
pub enum MintCaller {
    Listing,
    Admin,
    Whitelist,
}

/// The class the authorization lattice assigns a canonical caller, if any.
pub open spec fn resolve_caller(s: State, c: Seq<u8>) -> Option<MintCaller> {
    if contains_canon(s.listings@, c) {
        Some(MintCaller::Listing)
    } else if contains_canon(s.whitelist@, c) {
        Some(MintCaller::Whitelist)
    } else if contains_canon(s.admins@, c) {
        Some(MintCaller::Admin)
    } else {
        None
    }
}

/// Whether the directory resolves `sender` to an admin.
pub open spec fn sender_is_admin(s: State, dir: KeyDirectory, sender: Seq<char>) -> bool {
    dir.canon_of(sender) matches Some(c) && contains_canon(s.admins@, c)
}

/// The first seed: the digest of the base64 rendering of the instantiation
/// entropy.
pub open spec fn init_seed(entropy: Seq<char>) -> Seq<u8> {
    sha256_of(encode_utf8(base64_of(encode_utf8(entropy))))
}

/// A response that carries nothing but possibly data.
pub open spec fn quiet_response(resp: Response) -> bool {
    &&& resp.messages@.len() == 0
    &&& resp.log@.len() == 0
    &&& resp.dossier_fetch is None
}

/// The register-receive message init sends the collection.
pub open spec fn is_register_receive(m: OutboundMsg, env: Env, msg: InitMsg) -> bool {
    &&& m matches OutboundMsg::RegisterReceive {
        contract,
        minter_code_hash,
        also_implements_batch_receive,
        block_size,
    }
    &&& contract.address@ == msg.nft_contract.address@
    &&& contract.code_hash@ == msg.nft_contract.code_hash@
    &&& minter_code_hash@ == env.contract_code_hash@
    &&& also_implements_batch_receive == true
    &&& block_size == BLOCK_SIZE
}

/// What instantiation yields: a fresh state whose only admin is the sender,
/// zero counts, an empty pool, the hashed entropy as seed, the collection on
/// record, and one register-receive message.
pub open spec fn init_post(
    env: Env,
    msg: InitMsg,
    dir: KeyDirectory,
    r: Result<(State, Response), GumballError>,
) -> bool {
    match r {
        Ok((s, resp)) => {
            &&& dir.canon_of(env.contract_address@) == Some(s.my_address@)
            &&& dir.canon_of(env.sender@) matches Some(c) && s.admins@.len() == 1
                && s.admins@[0]@ == c
            &&& s.prng_seed@ == init_seed(msg.entropy@)
            &&& s.collection.code_hash@ == msg.nft_contract.code_hash@
            &&& dir.canon_of(msg.nft_contract.address@) == Some(s.collection.address@)
            &&& s.counts == (Counts { available: 0, released: 0 })
            &&& s.pool@.len() == 0
            &&& s.whitelist@.len() == 0
            &&& s.listings@.len() == 0
            &&& s.viewing_keys@.len() == 0
            &&& s.revoked_permits@.len() == 0
            &&& s.expected_factory is None
            &&& s.example is None
            &&& s.wf()
            &&& resp.messages@.len() == 1 && is_register_receive(resp.messages@[0], env, msg)
            &&& resp.data is None && resp.log@.len() == 0 && resp.dossier_fetch is None
        },
        Err(e) => {
            &&& e == GumballError::AddrUnresolved
            &&& {
                ||| dir.canon_of(env.contract_address@) is None
                ||| dir.canon_of(env.sender@) is None
                ||| dir.canon_of(msg.nft_contract.address@) is None
            }
        },
    }
}

/// Instantiates the contract.
pub fn init(env: &Env, msg: InitMsg, dir: &KeyDirectory) -> (r: Result<
    (State, Response),
    GumballError,
>)
    ensures
        init_post(*env, msg, *dir, r),
{
    let my_address = match dir.canonize(&env.contract_address) {
        Option::Some(c) => c,
        Option::None => {
            return Err(GumballError::AddrUnresolved);
        },
    };
    let sender_raw = match dir.canonize(&env.sender) {
        Option::Some(c) => c,
        Option::None => {
            return Err(GumballError::AddrUnresolved);
        },
    };
    let b64 = base64_encode(string_bytes(&msg.entropy));
    let prng_seed = sha_256(string_bytes(&b64));
    let mut admins: Vec<CanonAddr> = Vec::new();
    admins.push(sender_raw);
    let collection = match msg.nft_contract.dup().into_stored(dir) {
        Ok(s) => s,
        Err(e) => {
            return Err(e);
        },
    };
    let mut messages: Vec<OutboundMsg> = Vec::new();
    messages.push(
        OutboundMsg::RegisterReceive {
            contract: msg.nft_contract,
            minter_code_hash: env.contract_code_hash.clone(),
            also_implements_batch_receive: true,
            block_size: BLOCK_SIZE,
        },
    );
    let state = State {
        my_address,
        collection,
        admins,
        whitelist: Vec::new(),
        listings: Vec::new(),
        counts: Counts { available: 0, released: 0 },
        pool: Vec::new(),
        prng_seed,
        expected_factory: Option::None,
        example: Option::None,
        viewing_keys: Vec::new(),
        revoked_permits: Vec::new(),
    };
    let response = Response {
        messages,
        log: Vec::new(),
        data: Option::None,
        dossier_fetch: Option::None,
    };
    Ok((state, response))
}

/// The state fields a viewing-key write leaves untouched.
pub open spec fn only_viewing_keys_differ(pre: State, post: State) -> bool {
    &&& post.my_address == pre.my_address
    &&& post.collection == pre.collection
    &&& post.admins == pre.admins
    &&& post.whitelist == pre.whitelist
    &&& post.listings == pre.listings
    &&& post.counts == pre.counts
    &&& post.pool == pre.pool
    &&& post.prng_seed == pre.prng_seed
    &&& post.expected_factory == pre.expected_factory
    &&& post.example == pre.example
    &&& post.revoked_permits == pre.revoked_permits
}

/// What creating a viewing key yields: a fresh key derived from the
/// persisted seed and the transaction's entropy, its hash recorded for the
/// sender, and the key's text echoed back.
pub open spec fn create_key_post(
    pre: State,
    post: State,
    dir: KeyDirectory,
    env: Env,
    entropy: Seq<char>,
    r: Result<Response, GumballError>,
) -> bool {
    match r {
        Ok(resp) => {
            &&& dir.canon_of(env.sender@) matches Some(c) && {
                let key_text = viewing_key_text(
                    pre.prng_seed@,
                    extended_entropy(
                        env.block_height,
                        env.block_time,
                        env.tx_index,
                        c,
                        encode_utf8(entropy),
                    ),
                );
                &&& post.viewing_keys@.len() == pre.viewing_keys@.len() + 1
                &&& post.viewing_keys@.drop_first() == pre.viewing_keys@
                &&& post.viewing_keys@[0].0@ == c
                &&& post.viewing_keys@[0].1@ == key_hash(key_text)
                &&& resp.data matches Some(HandleAnswer::ViewingKey { key }) && key@ == key_text
            }
            &&& only_viewing_keys_differ(pre, post)
            &&& quiet_response(resp)
        },
        Err(e) => {
            &&& post == pre
            &&& e == GumballError::AddrUnresolved
            &&& dir.canon_of(env.sender@) is None
        },
    }
}

/// Creates a fresh viewing key for the sender and records its hash.
pub fn try_create_key(state: &mut State, dir: &KeyDirectory, env: &Env, entropy: &String) -> (r:
    Result<Response, GumballError>)
    requires
        old(state).wf(),
    ensures
        create_key_post(*old(state), *final(state), *dir, *env, entropy@, r),
        final(state).wf(),
{
    let sender_raw = match dir.canonize(&env.sender) {
        Option::Some(c) => c,
        Option::None => {
            return Err(GumballError::AddrUnresolved);
        },
    };
    let rng_entropy = extend_entropy(
        env.block_height,
        env.block_time,
        env.tx_index,
        sender_raw.0.as_slice(),
        string_bytes(entropy),
    );
    let key = ViewingKey::new(&state.prng_seed, &rng_entropy);
    let hash = key.to_hashed();
    state.viewing_keys.insert(0, (sender_raw, hash));
    proof {
        assert(state.viewing_keys@.drop_first() =~= old(state).viewing_keys@);
    }
    let mut resp = Response::empty();
    resp.data = Option::Some(HandleAnswer::ViewingKey { key: key.0 });
    Ok(resp)
}

/// What setting a viewing key yields: the supplied text's hash recorded for
/// the sender, and the text echoed back.
pub open spec fn set_key_post(
    pre: State,
    post: State,
    dir: KeyDirectory,
    sender: Seq<char>,
    key: Seq<char>,
    r: Result<Response, GumballError>,
) -> bool {
    match r {
        Ok(resp) => {
            &&& dir.canon_of(sender) matches Some(c) && {
                &&& post.viewing_keys@.len() == pre.viewing_keys@.len() + 1
                &&& post.viewing_keys@.drop_first() == pre.viewing_keys@
                &&& post.viewing_keys@[0].0@ == c
                &&& post.viewing_keys@[0].1@ == key_hash(key)
                &&& resp.data matches Some(HandleAnswer::ViewingKey { key: k }) && k@ == key
            }
            &&& only_viewing_keys_differ(pre, post)
            &&& quiet_response(resp)
        },
        Err(e) => {
            &&& post == pre
            &&& e == GumballError::AddrUnresolved
            &&& dir.canon_of(sender) is None
        },
    }
}

/// Sets the sender's viewing key to the supplied text.
pub fn try_set_key(state: &mut State, dir: &KeyDirectory, sender: &HumanAddr, key: String) -> (r:
    Result<Response, GumballError>)
    requires
        old(state).wf(),
    ensures
        set_key_post(*old(state), *final(state), *dir, sender@, key@, r),
        final(state).wf(),
{
    let sender_raw = match dir.canonize(sender) {
        Option::Some(c) => c,
        Option::None => {
            return Err(GumballError::AddrUnresolved);
        },
    };
    let vk = ViewingKey(key);
    let hash = vk.to_hashed();
    state.viewing_keys.insert(0, (sender_raw, hash));
    proof {
        assert(state.viewing_keys@.drop_first() =~= old(state).viewing_keys@);
    }
    let mut resp = Response::empty();
    resp.data = Option::Some(HandleAnswer::ViewingKey { key: vk.0 });
    Ok(resp)
}

/// The state fields a permit revocation leaves untouched.
pub open spec fn only_revoked_differ(pre: State, post: State) -> bool {
    &&& post.my_address == pre.my_address
    &&& post.collection == pre.collection
    &&& post.admins == pre.admins
    &&& post.whitelist == pre.whitelist
    &&& post.listings == pre.listings
    &&& post.counts == pre.counts
    &&& post.pool == pre.pool
    &&& post.prng_seed == pre.prng_seed
    &&& post.expected_factory == pre.expected_factory
    &&& post.example == pre.example
    &&& post.viewing_keys == pre.viewing_keys
}

/// What revoking a permit yields: the (sender, name) pair recorded, and a
/// success answer.  Revocation never fails.
pub open spec fn revoke_permit_post(
    pre: State,
    post: State,
    sender: Seq<char>,
    name: Seq<char>,
    r: Result<Response, GumballError>,
) -> bool {
    match r {
        Ok(resp) => {
            &&& post.revoked_permits@.len() == pre.revoked_permits@.len() + 1
            &&& post.revoked_permits@.drop_last() == pre.revoked_permits@
            &&& post.revoked_permits@.last().0@ == sender
            &&& post.revoked_permits@.last().1@ == name
            &&& only_revoked_differ(pre, post)
            &&& resp.data matches Some(HandleAnswer::RevokePermit { status }) && status@
                == "success"@
            &&& quiet_response(resp)
        },
        Err(_) => false,
    }
}

/// Disallows further use of the named permit by the sender.
pub fn revoke_permit(state: &mut State, sender: &HumanAddr, permit_name: &String) -> (r: Result<
    Response,
    GumballError,
>)
    requires
        old(state).wf(),
    ensures
        revoke_permit_post(*old(state), *final(state), sender@, permit_name@, r),
        final(state).wf(),
{
    state.revoked_permits.push((sender.dup(), permit_name.clone()));
    proof {
        assert(state.revoked_permits@.drop_last() =~= old(state).revoked_permits@);
    }
    let mut resp = Response::empty();
    resp.data = Option::Some(HandleAnswer::RevokePermit { status: "success".to_owned() });
    Ok(resp)
}

/// The state fields the handshake leaves untouched.
pub open spec fn only_handshake_differs(pre: State, post: State) -> bool {
    &&& post.my_address == pre.my_address
    &&& post.collection == pre.collection
    &&& post.admins == pre.admins
    &&& post.whitelist == pre.whitelist
    &&& post.counts == pre.counts
    &&& post.pool == pre.pool
    &&& post.prng_seed == pre.prng_seed
    &&& post.example == pre.example
    &&& post.viewing_keys == pre.viewing_keys
    &&& post.revoked_permits == pre.revoked_permits
}

/// What registering a listing yields: it succeeds exactly when a handshake
/// is armed and the sender is the armed factory; the listing joins the
/// registry and the handshake returns to idle.
pub open spec fn register_listing_post(
    pre: State,
    post: State,
    dir: KeyDirectory,
    sender: Seq<char>,
    listing: Seq<char>,
    r: Result<Response, GumballError>,
) -> bool {
    match r {
        Ok(resp) => {
            &&& pre.expected_factory matches Some(f) && f@ == sender
            &&& dir.canon_of(listing) matches Some(lc) && canon_views(post.listings@)
                == roster_add(canon_views(pre.listings@), seq![lc])
            &&& post.expected_factory is None
            &&& only_handshake_differs(pre, post)
            &&& resp.data is None
            &&& quiet_response(resp)
        },
        Err(e) => {
            &&& post == pre
            &&& match e {
                GumballError::ExpectedFactoryAbsent => pre.expected_factory is None,
                GumballError::ExpectedFactoryMismatch => pre.expected_factory matches Some(f)
                    && f@ != sender,
                GumballError::AddrUnresolved => pre.expected_factory matches Some(f) && f@
                    == sender && dir.canon_of(listing) is None,
                _ => false,
            }
        },
    }
}

/// Registers a listing address as allowed to request mints.  Accepted only
/// from the factory the most recent CreateListing armed.
pub fn try_register_listing(
    state: &mut State,
    dir: &KeyDirectory,
    sender: &HumanAddr,
    listing_address: &HumanAddr,
) -> (r: Result<Response, GumballError>)
    requires
        old(state).wf(),
    ensures
        register_listing_post(
            *old(state),
            *final(state),
            *dir,
            sender@,
            listing_address@,
            r,
        ),
        final(state).wf(),
{
    let matched = match &state.expected_factory {
        Option::Some(f) => f.addr_eq(sender),
        Option::None => {
            return Err(GumballError::ExpectedFactoryAbsent);
        },
    };
    if !matched {
        return Err(GumballError::ExpectedFactoryMismatch);
    }
    let list_raw = match dir.canonize(listing_address) {
        Option::Some(c) => c,
        Option::None => {
            return Err(GumballError::AddrUnresolved);
        },
    };
    let ghost lv = list_raw@;
    let ghost pre_listings = canon_views(state.listings@);
    proof {
        lemma_contains_views(state.listings@, lv);
    }
    if !canon_list_contains(&state.listings, &list_raw) {
        state.listings.push(list_raw);
        proof {
            assert(canon_views(state.listings@) =~= pre_listings.push(lv));
        }
    }
    proof {
        reveal_with_fuel(roster_add, 2);
        assert(seq![lv].drop_first() =~= Seq::<Seq<u8>>::empty());
        assert(canon_views(state.listings@) == roster_add(pre_listings, seq![lv]));
    }
    state.expected_factory = Option::None;
    Ok(Response::empty())
}

/// What setting a viewing key with a foreign collection yields: admin only,
/// refused against the primary collection; one set-viewing-key message and
/// the key echoed back.  The state is untouched.
pub open spec fn set_key_with_coll_post(
    s: State,
    dir: KeyDirectory,
    sender: Seq<char>,
    contract_addr: Seq<char>,
    contract_hash: Seq<char>,
    key: Seq<char>,
    r: Result<Response, GumballError>,
) -> bool {
    match r {
        Ok(resp) => {
            &&& sender_is_admin(s, dir, sender)
            &&& dir.human_of(s.collection.address@) matches Some(coll) && coll != contract_addr
            &&& resp.messages@.len() == 1
            &&& resp.messages@[0] matches OutboundMsg::SetViewingKey { contract, key: k, block_size }
                && contract.address@ == contract_addr && contract.code_hash@ == contract_hash
                && k@ == key && block_size == BLOCK_SIZE
            &&& resp.data matches Some(HandleAnswer::ViewingKey { key: k2 }) && k2@ == key
            &&& resp.log@.len() == 0 && resp.dossier_fetch is None
        },
        Err(e) => match e {
            GumballError::AddrUnresolved => dir.canon_of(sender) is None || (sender_is_admin(
                s,
                dir,
                sender,
            ) && dir.human_of(s.collection.address@) is None),
            GumballError::Unauthorized => dir.canon_of(sender) matches Some(c) && !contains_canon(
                s.admins@,
                c,
            ),
            GumballError::NotPrimaryCollection => sender_is_admin(s, dir, sender) && dir.human_of(
                s.collection.address@,
            ) == Some(contract_addr),
            _ => false,
        },
    }
}

/// Sets a viewing key with a collection other than the primary one, to help
/// recover tokens sent from the wrong collection.  Admin only; refused
/// against the primary collection, which would let an admin peek at the
/// pool.
pub fn try_set_key_with_coll(
    state: &State,
    dir: &KeyDirectory,
    sender: &HumanAddr,
    nft_contract: ContractInfo,
    viewing_key: String,
) -> (r: Result<Response, GumballError>)
    ensures
        set_key_with_coll_post(
            *state,
            *dir,
            sender@,
            nft_contract.address@,
            nft_contract.code_hash@,
            viewing_key@,
            r,
        ),
{
    let sender_raw = match dir.canonize(sender) {
        Option::Some(c) => c,
        Option::None => {
            return Err(GumballError::AddrUnresolved);
        },
    };
    if !canon_list_contains(&state.admins, &sender_raw) {
        return Err(GumballError::Unauthorized);
    }
    let contract = match state.collection.into_humanized(dir) {
        Ok(c) => c,
        Err(e) => {
            return Err(e);
        },
    };
    if contract.address.addr_eq(&nft_contract.address) {
        return Err(GumballError::NotPrimaryCollection);
    }
    let mut resp = Response::empty();
    resp.data = Option::Some(HandleAnswer::ViewingKey { key: viewing_key.clone() });
    resp.messages.push(
        OutboundMsg::SetViewingKey {
            contract: nft_contract,
            key: viewing_key,
            block_size: BLOCK_SIZE,
        },
    );
    Ok(resp)
}

/// The memo a retrieval transfer carries.
pub open spec fn retrieve_memo(contract_addr: Seq<char>) -> Seq<char> {
    "Retrieved from gumball: "@ + contract_addr
}

/// What retrieving foreign tokens yields: admin only, refused against the
/// primary collection; one batch-transfer of the named tokens back to the
/// calling admin.  The state, pool included, is untouched.
pub open spec fn retrieve_post(
    s: State,
    dir: KeyDirectory,
    env: Env,
    contract_addr: Seq<char>,
    contract_hash: Seq<char>,
    token_ids: Seq<String>,
    r: Result<Response, GumballError>,
) -> bool {
    match r {
        Ok(resp) => {
            &&& sender_is_admin(s, dir, env.sender@)
            &&& dir.human_of(s.collection.address@) matches Some(coll) && coll != contract_addr
            &&& resp.messages@.len() == 1
            &&& resp.messages@[0] matches OutboundMsg::BatchTransfer {
                contract,
                transfers,
                block_size,
            } && contract.address@ == contract_addr && contract.code_hash@ == contract_hash
                && block_size == BLOCK_SIZE && transfers@.len() == 1
                && transfers@[0].recipient@ == env.sender@
                && transfers@[0].token_ids@ == token_ids
                && transfers@[0].memo@ == retrieve_memo(env.contract_address@)
            &&& resp.data matches Some(HandleAnswer::RetrieveNft { status }) && status@
                == "success"@
            &&& resp.log@.len() == 0 && resp.dossier_fetch is None
        },
        Err(e) => match e {
            GumballError::AddrUnresolved => dir.canon_of(env.sender@) is None || (sender_is_admin(
                s,
                dir,
                env.sender@,
            ) && dir.human_of(s.collection.address@) is None),
            GumballError::Unauthorized => dir.canon_of(env.sender@) matches Some(c)
                && !contains_canon(s.admins@, c),
            GumballError::NotPrimaryCollection => sender_is_admin(s, dir, env.sender@)
                && dir.human_of(s.collection.address@) == Some(contract_addr),
            _ => false,
        },
    }
}

/// Retrieves tokens accidentally sent from a collection other than the
/// primary one, transferring them to the calling admin.
pub fn try_retrieve(
    state: &State,
    dir: &KeyDirectory,
    env: &Env,
    nft_contract: ContractInfo,
    token_ids: Vec<String>,
) -> (r: Result<Response, GumballError>)
    ensures
        retrieve_post(
            *state,
            *dir,
            *env,
            nft_contract.address@,
            nft_contract.code_hash@,
            token_ids@,
            r,
        ),
{
    let sender_raw = match dir.canonize(&env.sender) {
        Option::Some(c) => c,
        Option::None => {
            return Err(GumballError::AddrUnresolved);
        },
    };
    if !canon_list_contains(&state.admins, &sender_raw) {
        return Err(GumballError::Unauthorized);
    }
    let contract = match state.collection.into_humanized(dir) {
        Ok(c) => c,
        Err(e) => {
            return Err(e);
        },
    };
    if contract.address.addr_eq(&nft_contract.address) {
        return Err(GumballError::NotPrimaryCollection);
    }
    let mut memo = String::new();
    memo.append("Retrieved from gumball: ");
    memo.append(env.contract_address.0.as_str());
    proof {
        assert(memo@ =~= retrieve_memo(env.contract_address@));
    }
    let mut transfers: Vec<Transfer> = Vec::new();
    transfers.push(Transfer { recipient: env.sender.dup(), token_ids, memo });
    let mut resp = Response::empty();
    resp.data = Option::Some(HandleAnswer::RetrieveNft { status: "success".to_owned() });
    resp.messages.push(
        OutboundMsg::BatchTransfer { contract: nft_contract, transfers, block_size: BLOCK_SIZE },
    );
    Ok(resp)
}

/// The canonical form the directory gives a displayable address, or the
/// empty byte string where it gives none.
pub open spec fn canon_of_or_empty(dir: KeyDirectory, h: Seq<char>) -> Seq<u8> {
    match dir.canon_of(h) {
        Some(c) => c,
        None => Seq::empty(),
    }
}

/// Whether the directory resolves every address of the list.
pub open spec fn resolvable_all(dir: KeyDirectory, addrs: Seq<HumanAddr>) -> bool {
    forall|i: int| 0 <= i < addrs.len() ==> dir.canon_of(#[trigger] addrs[i]@) is Some
}

/// The canonical views of a list of displayable addresses.
pub open spec fn resolved_views(dir: KeyDirectory, addrs: Seq<HumanAddr>) -> Seq<Seq<u8>> {
    addrs.map_values(|h: HumanAddr| canon_of_or_empty(dir, h@))
}

/// Whether the directory humanizes every canonical view of the list.
pub open spec fn views_humanizable(dir: KeyDirectory, vs: Seq<Seq<u8>>) -> bool {
    forall|i: int| 0 <= i < vs.len() ==> dir.human_of(#[trigger] vs[i]) is Some
}

/// Resolves every address of the list to its canonical form.
fn canonize_list(dir: &KeyDirectory, addrs: &Vec<HumanAddr>) -> (r: Result<
    Vec<CanonAddr>,
    GumballError,
>)
    ensures
        r is Ok <==> resolvable_all(*dir, addrs@),
        match r {
            Ok(cs) => canon_views(cs@) == resolved_views(*dir, addrs@),
            Err(e) => e == GumballError::AddrUnresolved,
        },
{
    let mut out: Vec<CanonAddr> = Vec::new();
    let mut i: usize = 0;
    while i < addrs.len()
        invariant
            i <= addrs@.len(),
            out@.len() == i,
            forall|j: int|
                0 <= j < i ==> dir.canon_of(#[trigger] addrs@[j]@) == Some(out@[j]@),
        decreases addrs@.len() - i,
    {
        match dir.canonize(&addrs[i]) {
            Option::Some(c) => out.push(c),
            Option::None => {
                return Err(GumballError::AddrUnresolved);
            },
        }
        i = i + 1;
    }
    proof {
        assert(canon_views(out@) =~= resolved_views(*dir, addrs@));
    }
    Ok(out)
}

/// Humanizes every address of the list.
fn humanize_list(dir: &KeyDirectory, list: &Vec<CanonAddr>) -> (r: Result<
    Vec<HumanAddr>,
    GumballError,
>)
    ensures
        r is Ok <==> views_humanizable(*dir, canon_views(list@)),
        match r {
            Ok(hs) => hs@.len() == list@.len() && forall|i: int|
                0 <= i < list@.len() ==> dir.human_of(#[trigger] list@[i]@) == Some(hs@[i]@),
            Err(e) => e == GumballError::AddrUnresolved,
        },
{
    let mut out: Vec<HumanAddr> = Vec::new();
    let mut i: usize = 0;
    while i < list.len()
        invariant
            i <= list@.len(),
            out@.len() == i,
            forall|j: int|
                0 <= j < i ==> dir.human_of(#[trigger] list@[j]@) == Some(out@[j]@),
        decreases list@.len() - i,
    {
        match dir.humanize(&list[i]) {
            Option::Some(h) => out.push(h),
            Option::None => {
                proof {
                    assert(!(dir.human_of(canon_views(list@)[i as int]) is Some));
                }
                return Err(GumballError::AddrUnresolved);
            },
        }
        i = i + 1;
    }
    proof {
        assert forall|i: int| 0 <= i < canon_views(list@).len() implies dir.human_of(
            #[trigger] canon_views(list@)[i],
        ) is Some by {
            assert(dir.human_of(list@[i]@) == Some(out@[i]@));
        }
    }
    Ok(out)
}

/// An owned copy of a list of canonical addresses, view for view.
fn dup_canon_list(list: &Vec<CanonAddr>) -> (r: Vec<CanonAddr>)
    ensures
        canon_views(r@) == canon_views(list@),
{
    let mut out: Vec<CanonAddr> = Vec::new();
    let mut i: usize = 0;
    while i < list.len()
        invariant
            i <= list@.len(),
            out@.len() == i,
            forall|j: int| 0 <= j < i ==> out@[j]@ == #[trigger] list@[j]@,
        decreases list@.len() - i,
    {
        out.push(list[i].dup());
        i = i + 1;
    }
    proof {
        assert(canon_views(out@) =~= canon_views(list@));
    }
    out
}

/// The state fields a whitelist edit leaves untouched.
pub open spec fn only_whitelist_differs(pre: State, post: State) -> bool {
    &&& post.my_address == pre.my_address
    &&& post.collection == pre.collection
    &&& post.admins == pre.admins
    &&& post.listings == pre.listings
    &&& post.counts == pre.counts
    &&& post.pool == pre.pool
    &&& post.prng_seed == pre.prng_seed
    &&& post.expected_factory == pre.expected_factory
    &&& post.example == pre.example
    &&& post.viewing_keys == pre.viewing_keys
    &&& post.revoked_permits == pre.revoked_permits
}

/// What a whitelist edit yields: admin only; on an addition the resolved
/// addresses join the whitelist, on a removal every occurrence of them
/// leaves it.
pub open spec fn whitelist_update_post(
    pre: State,
    post: State,
    dir: KeyDirectory,
    sender: Seq<char>,
    addresses: Seq<HumanAddr>,
    is_add: bool,
    r: Result<Response, GumballError>,
) -> bool {
    match r {
        Ok(resp) => {
            &&& sender_is_admin(pre, dir, sender)
            &&& resolvable_all(dir, addresses)
            &&& canon_views(post.whitelist@) == if is_add {
                roster_add(canon_views(pre.whitelist@), resolved_views(dir, addresses))
            } else {
                roster_remove(canon_views(pre.whitelist@), resolved_views(dir, addresses))
            }
            &&& only_whitelist_differs(pre, post)
            &&& if is_add {
                resp.data matches Some(HandleAnswer::AddToWhitelist { status }) && status@
                    == "success"@
            } else {
                resp.data matches Some(HandleAnswer::RemoveFromWhitelist { status }) && status@
                    == "success"@
            }
            &&& quiet_response(resp)
        },
        Err(e) => {
            &&& post == pre
            &&& match e {
                GumballError::AddrUnresolved => dir.canon_of(sender) is None || (sender_is_admin(
                    pre,
                    dir,
                    sender,
                ) && !resolvable_all(dir, addresses)),
                GumballError::Unauthorized => dir.canon_of(sender) matches Some(c)
                    && !contains_canon(pre.admins@, c),
                _ => false,
            }
        },
    }
}

/// Adds addresses to or removes them from the whitelist.  Admin only.
pub fn try_update_whitelist(
    state: &mut State,
    dir: &KeyDirectory,
    sender: &HumanAddr,
    addresses: &Vec<HumanAddr>,
    is_add: bool,
) -> (r: Result<Response, GumballError>)
    requires
        old(state).wf(),
    ensures
        whitelist_update_post(
            *old(state),
            *final(state),
            *dir,
            sender@,
            addresses@,
            is_add,
            r,
        ),
        final(state).wf(),
{
    let sender_raw = match dir.canonize(sender) {
        Option::Some(c) => c,
        Option::None => {
            return Err(GumballError::AddrUnresolved);
        },
    };
    if !canon_list_contains(&state.admins, &sender_raw) {
        return Err(GumballError::Unauthorized);
    }
    let cs = match canonize_list(dir, addresses) {
        Ok(cs) => cs,
        Err(e) => {
            return Err(e);
        },
    };
    let mut resp = Response::empty();
    if is_add {
        crate::roster::roster_add_exec(&mut state.whitelist, &cs);
        resp.data = Option::Some(HandleAnswer::AddToWhitelist { status: "success".to_owned() });
    } else {
        crate::roster::roster_remove_exec(&mut state.whitelist, &cs);
        resp.data = Option::Some(
            HandleAnswer::RemoveFromWhitelist { status: "success".to_owned() },
        );
    }
    Ok(resp)
}

/// The state fields an admin edit leaves untouched.
pub open spec fn only_admins_differ(pre: State, post: State) -> bool {
    &&& post.my_address == pre.my_address
    &&& post.collection == pre.collection
    &&& post.whitelist == pre.whitelist
    &&& post.listings == pre.listings
    &&& post.counts == pre.counts
    &&& post.pool == pre.pool
    &&& post.prng_seed == pre.prng_seed
    &&& post.expected_factory == pre.expected_factory
    &&& post.example == pre.example
    &&& post.viewing_keys == pre.viewing_keys
    &&& post.revoked_permits == pre.revoked_permits
}

/// Whether `hs` displays the list `vs`, address for address.
pub open spec fn humanized_of_views(
    dir: KeyDirectory,
    vs: Seq<Seq<u8>>,
    hs: Seq<HumanAddr>,
) -> bool {
    hs.len() == vs.len() && forall|i: int|
        0 <= i < vs.len() ==> dir.human_of(#[trigger] vs[i]) == Some(hs[i]@)
}

/// What an admin edit yields: admin only; additions are idempotent
/// (an address already on the list is not appended again), removals filter
/// every occurrence; the answer lists the resulting admins in displayable
/// form.
pub open spec fn update_admins_post(
    pre: State,
    post: State,
    dir: KeyDirectory,
    sender: Seq<char>,
    addresses: Seq<HumanAddr>,
    is_add: bool,
    r: Result<Response, GumballError>,
) -> bool {
    let target = if is_add {
        roster_add(canon_views(pre.admins@), resolved_views(dir, addresses))
    } else {
        roster_remove(canon_views(pre.admins@), resolved_views(dir, addresses))
    };
    match r {
        Ok(resp) => {
            &&& sender_is_admin(pre, dir, sender)
            &&& resolvable_all(dir, addresses)
            &&& canon_views(post.admins@) == target
            &&& only_admins_differ(pre, post)
            &&& resp.data matches Some(HandleAnswer::AdminsList { admins }) && humanized_of_views(
                dir,
                target,
                admins@,
            )
            &&& quiet_response(resp)
        },
        Err(e) => {
            &&& post == pre
            &&& match e {
                GumballError::AddrUnresolved => {
                    ||| dir.canon_of(sender) is None
                    ||| (sender_is_admin(pre, dir, sender) && !resolvable_all(dir, addresses))
                    ||| (sender_is_admin(pre, dir, sender) && resolvable_all(dir, addresses)
                        && !views_humanizable(dir, target))
                },
                GumballError::Unauthorized => dir.canon_of(sender) matches Some(c)
                    && !contains_canon(pre.admins@, c),
                _ => false,
            }
        },
    }
}

/// Grants admin rights to each address not already an admin.  Admin only.
pub fn try_add_admins(
    state: &mut State,
    dir: &KeyDirectory,
    sender: &HumanAddr,
    admins_to_add: &Vec<HumanAddr>,
) -> (r: Result<Response, GumballError>)
    requires
        old(state).wf(),
    ensures
        update_admins_post(
            *old(state),
            *final(state),
            *dir,
            sender@,
            admins_to_add@,
            true,
            r,
        ),
        final(state).wf(),
{
    let sender_raw = match dir.canonize(sender) {
        Option::Some(c) => c,
        Option::None => {
            return Err(GumballError::AddrUnresolved);
        },
    };
    if !canon_list_contains(&state.admins, &sender_raw) {
        return Err(GumballError::Unauthorized);
    }
    let cs = match canonize_list(dir, admins_to_add) {
        Ok(cs) => cs,
        Err(e) => {
            return Err(e);
        },
    };
    let mut new_admins = dup_canon_list(&state.admins);
    crate::roster::roster_add_exec(&mut new_admins, &cs);
    let humanized = match humanize_list(dir, &new_admins) {
        Ok(hs) => hs,
        Err(e) => {
            return Err(e);
        },
    };
    proof {
        assert forall|i: int| 0 <= i < canon_views(new_admins@).len() implies dir.human_of(
            #[trigger] canon_views(new_admins@)[i],
        ) == Some(humanized@[i]@) by {
            assert(dir.human_of(new_admins@[i]@) == Some(humanized@[i]@));
        }
    }
    state.admins = new_admins;
    let mut resp = Response::empty();
    resp.data = Option::Some(HandleAnswer::AdminsList { admins: humanized });
    Ok(resp)
}

/// Revokes admin rights from every address named.  Admin only.
pub fn try_remove_admins(
    state: &mut State,
    dir: &KeyDirectory,
    sender: &HumanAddr,
    admins_to_remove: &Vec<HumanAddr>,
) -> (r: Result<Response, GumballError>)
    requires
        old(state).wf(),
    ensures
        update_admins_post(
            *old(state),
            *final(state),
            *dir,
            sender@,
            admins_to_remove@,
            false,
            r,
        ),
        final(state).wf(),
{
    let sender_raw = match dir.canonize(sender) {
        Option::Some(c) => c,
        Option::None => {
            return Err(GumballError::AddrUnresolved);
        },
    };
    if !canon_list_contains(&state.admins, &sender_raw) {
        return Err(GumballError::Unauthorized);
    }
    let cs = match canonize_list(dir, admins_to_remove) {
        Ok(cs) => cs,
        Err(e) => {
            return Err(e);
        },
    };
    let mut new_admins = dup_canon_list(&state.admins);
    crate::roster::roster_remove_exec(&mut new_admins, &cs);
    let humanized = match humanize_list(dir, &new_admins) {
        Ok(hs) => hs,
        Err(e) => {
            return Err(e);
        },
    };
    proof {
        assert forall|i: int| 0 <= i < canon_views(new_admins@).len() implies dir.human_of(
            #[trigger] canon_views(new_admins@)[i],
        ) == Some(humanized@[i]@) by {
            assert(dir.human_of(new_admins@[i]@) == Some(humanized@[i]@));
        }
    }
    state.admins = new_admins;
    let mut resp = Response::empty();
    resp.data = Option::Some(HandleAnswer::AdminsList { admins: humanized });
    Ok(resp)
}

/// The state fields a deposit leaves untouched.
pub open spec fn only_pool_differs(pre: State, post: State) -> bool {
    &&& post.my_address == pre.my_address
    &&& post.collection == pre.collection
    &&& post.admins == pre.admins
    &&& post.whitelist == pre.whitelist
    &&& post.listings == pre.listings
    &&& post.prng_seed == pre.prng_seed
    &&& post.expected_factory == pre.expected_factory
    &&& post.example == pre.example
    &&& post.viewing_keys == pre.viewing_keys
    &&& post.revoked_permits == pre.revoked_permits
}

/// What a deposit yields: only the primary collection may report it, only an
/// admin may stock the machine; the ids are appended to the pool in order,
/// and the first deposit into an empty pool asks the host to fetch that
/// token's dossier for the example cache.
pub open spec fn batch_receive_post(
    pre: State,
    post: State,
    dir: KeyDirectory,
    sender: Seq<char>,
    from: Seq<char>,
    token_ids: Seq<String>,
    r: Result<Response, GumballError>,
) -> bool {
    match r {
        Ok(resp) => {
            &&& dir.human_of(pre.collection.address@) == Some(sender)
            &&& dir.canon_of(from) matches Some(fc) && contains_canon(pre.admins@, fc)
            &&& if token_ids.len() == 0 {
                post == pre && resp.data is None && quiet_response(resp)
            } else {
                &&& pre.pool@.len() + token_ids.len() <= u32::MAX
                &&& post.pool@ == pre.pool@ + token_ids
                &&& post.counts.available == pre.counts.available + token_ids.len()
                &&& post.counts.released == pre.counts.released
                &&& only_pool_differs(pre, post)
                &&& resp.data is None && resp.messages@.len() == 0 && resp.log@.len() == 0
                &&& if pre.pool@.len() == 0 {
                    resp.dossier_fetch matches Some(t) && t@ == token_ids[0]@
                } else {
                    resp.dossier_fetch is None
                }
            }
        },
        Err(e) => {
            &&& post == pre
            &&& match e {
                GumballError::AddrUnresolved => {
                    ||| dir.human_of(pre.collection.address@) is None
                    ||| (dir.human_of(pre.collection.address@) == Some(sender) && dir.canon_of(
                        from,
                    ) is None)
                },
                GumballError::SpoofedSender => dir.human_of(pre.collection.address@) matches Some(
                    coll,
                ) && coll != sender,
                GumballError::Unauthorized => dir.human_of(pre.collection.address@) == Some(sender)
                    && (dir.canon_of(from) matches Some(fc) && !contains_canon(pre.admins@, fc)),
                GumballError::PoolFull => dir.human_of(pre.collection.address@) == Some(sender)
                    && sender_is_admin_from(pre, dir, from) && token_ids.len() > 0
                    && pre.pool@.len() + token_ids.len() > u32::MAX,
                _ => false,
            }
        },
    }
}

/// Whether the directory resolves `from` to an admin.
pub open spec fn sender_is_admin_from(s: State, dir: KeyDirectory, from: Seq<char>) -> bool {
    dir.canon_of(from) matches Some(c) && contains_canon(s.admins@, c)
}

/// Services a token-receive callback: verifies the reporter and the prior
/// owner, appends the ids to the pool, and asks for an example dossier when
/// the pool was empty.
pub fn try_batch_receive(
    state: &mut State,
    dir: &KeyDirectory,
    sender: &HumanAddr,
    from: &HumanAddr,
    token_ids: Vec<String>,
) -> (r: Result<Response, GumballError>)
    requires
        old(state).wf(),
    ensures
        batch_receive_post(*old(state), *final(state), *dir, sender@, from@, token_ids@, r),
        final(state).wf(),
{
    let coll = match state.collection.into_humanized(dir) {
        Ok(c) => c,
        Err(e) => {
            return Err(e);
        },
    };
    if !coll.address.addr_eq(sender) {
        return Err(GumballError::SpoofedSender);
    }
    let from_raw = match dir.canonize(from) {
        Option::Some(c) => c,
        Option::None => {
            return Err(GumballError::AddrUnresolved);
        },
    };
    if !canon_list_contains(&state.admins, &from_raw) {
        return Err(GumballError::Unauthorized);
    }
    if token_ids.len() == 0 {
        return Ok(Response::empty());
    }
    let max_ids: usize = (u32::MAX as usize) - state.pool.len();
    if token_ids.len() > max_ids {
        return Err(GumballError::PoolFull);
    }
    let was_empty = state.pool.len() == 0;
    let first = if was_empty {
        Option::Some(token_ids[0].clone())
    } else {
        Option::None
    };
    let mut incoming = token_ids;
    state.pool.append(&mut incoming);
    state.counts.available = state.pool.len() as u32;
    let mut resp = Response::empty();
    resp.dossier_fetch = first;
    Ok(resp)
}

/// The state fields the example cache write leaves untouched.
pub open spec fn only_example_differs(pre: State, post: State) -> bool {
    &&& post.my_address == pre.my_address
    &&& post.collection == pre.collection
    &&& post.admins == pre.admins
    &&& post.whitelist == pre.whitelist
    &&& post.listings == pre.listings
    &&& post.counts == pre.counts
    &&& post.pool == pre.pool
    &&& post.prng_seed == pre.prng_seed
    &&& post.expected_factory == pre.expected_factory
    &&& post.viewing_keys == pre.viewing_keys
    &&& post.revoked_permits == pre.revoked_permits
}

/// Stores a fetched dossier as the example cache.  The host calls this with
/// the answer to a [`Response::dossier_fetch`] request, handing the empty
/// dossier when the query failed.
pub fn set_example(state: &mut State, dir: &KeyDirectory, dossier: &NftDossierForListing) -> (r:
    Result<(), GumballError>)
    requires
        old(state).wf(),
    ensures
        final(state).wf(),
        r is Ok <==> dossier_resolvable(*dossier, *dir),
        match r {
            Ok(_) => final(state).example matches Some(s) && dossier_stored_rel(
                *dossier,
                s,
                *dir,
            ) && only_example_differs(*old(state), *final(state)),
            Err(e) => e == GumballError::AddrUnresolved && *final(state) == *old(state),
        },
{
    let stored = match dossier.into_stored(dir) {
        Ok(s) => s,
        Err(e) => {
            return Err(e);
        },
    };
    state.example = Option::Some(stored);
    Ok(())
}

/// The state fields arming the handshake leaves untouched.
pub open spec fn only_expected_differs(pre: State, post: State) -> bool {
    &&& post.my_address == pre.my_address
    &&& post.collection == pre.collection
    &&& post.admins == pre.admins
    &&& post.whitelist == pre.whitelist
    &&& post.listings == pre.listings
    &&& post.counts == pre.counts
    &&& post.pool == pre.pool
    &&& post.prng_seed == pre.prng_seed
    &&& post.example == pre.example
    &&& post.viewing_keys == pre.viewing_keys
    &&& post.revoked_permits == pre.revoked_permits
}

/// What asking the factory for a listing yields: admin only; the handshake
/// arms on the factory's address (overwriting any armed handshake: the last
/// writer wins), and one message carries every listing parameter, with the
/// pool size at dispatch time as the quantity for sale.
pub open spec fn create_listing_post(
    pre: State,
    post: State,
    dir: KeyDirectory,
    env: Env,
    label: Seq<char>,
    payment_address: Option<HumanAddr>,
    factory_addr: Seq<char>,
    factory_hash: Seq<char>,
    buy_contract_addr: Seq<char>,
    buy_contract_hash: Seq<char>,
    batch_send: bool,
    price: u128,
    closes_at: u64,
    description: Option<String>,
    entropy: Seq<char>,
    r: Result<Response, GumballError>,
) -> bool {
    match r {
        Ok(resp) => {
            &&& sender_is_admin(pre, dir, env.sender@)
            &&& dir.human_of(pre.collection.address@) matches Some(coll) && {
                &&& post.expected_factory matches Some(f) && f@ == factory_addr
                &&& only_expected_differs(pre, post)
                &&& resp.messages@.len() == 1
                &&& resp.messages@[0] matches OutboundMsg::CreateMinterListing {
                    factory,
                    msg,
                    block_size,
                } && {
                    &&& factory.address@ == factory_addr
                    &&& factory.code_hash@ == factory_hash
                    &&& block_size == BLOCK_SIZE
                    &&& msg.label@ == label
                    &&& msg.creator@ == env.sender@
                    &&& match (payment_address, msg.payment_address) {
                        (Option::None, Option::None) => true,
                        (Option::Some(p), Option::Some(q)) => p@ == q@,
                        _ => false,
                    }
                    &&& msg.quantity_for_sale == pre.counts.available
                    &&& msg.minter_contract.address@ == env.contract_address@
                    &&& msg.minter_contract.code_hash@ == env.contract_code_hash@
                    &&& msg.option_id@ == "Gumball"@
                    &&& msg.buy_contract.address@ == buy_contract_addr
                    &&& msg.buy_contract.code_hash@ == buy_contract_hash
                    &&& msg.batch_send == batch_send
                    &&& msg.price == price
                    &&& msg.closes_at == closes_at
                    &&& match (description, msg.description) {
                        (Option::None, Option::None) => true,
                        (Option::Some(p), Option::Some(q)) => p@ == q@,
                        _ => false,
                    }
                    &&& msg.entropy@ == entropy
                    &&& msg.nft_contract_address@ == coll
                    &&& msg.implements_register_listing == true
                }
                &&& resp.data is None && resp.log@.len() == 0 && resp.dossier_fetch is None
            }
        },
        Err(e) => {
            &&& post == pre
            &&& match e {
                GumballError::AddrUnresolved => dir.canon_of(env.sender@) is None || (
                sender_is_admin(pre, dir, env.sender@) && dir.human_of(
                    pre.collection.address@,
                ) is None),
                GumballError::Unauthorized => dir.canon_of(env.sender@) matches Some(c)
                    && !contains_canon(pre.admins@, c),
                _ => false,
            }
        },
    }
}

/// Asks the factory to create a sale listing and arms the handshake on the
/// factory's address.
pub fn try_create_listing(
    state: &mut State,
    dir: &KeyDirectory,
    env: &Env,
    label: String,
    payment_address: Option<HumanAddr>,
    factory_contract: ContractInfo,
    buy_contract: ContractInfo,
    batch_send: bool,
    price: u128,
    closes_at: u64,
    description: Option<String>,
    entropy: String,
) -> (r: Result<Response, GumballError>)
    requires
        old(state).wf(),
    ensures
        create_listing_post(
            *old(state),
            *final(state),
            *dir,
            *env,
            label@,
            payment_address,
            factory_contract.address@,
            factory_contract.code_hash@,
            buy_contract.address@,
            buy_contract.code_hash@,
            batch_send,
            price,
            closes_at,
            description,
            entropy@,
            r,
        ),
        final(state).wf(),
{
    let sender_raw = match dir.canonize(&env.sender) {
        Option::Some(c) => c,
        Option::None => {
            return Err(GumballError::AddrUnresolved);
        },
    };
    if !canon_list_contains(&state.admins, &sender_raw) {
        return Err(GumballError::Unauthorized);
    }
    let coll = match state.collection.into_humanized(dir) {
        Ok(c) => c,
        Err(e) => {
            return Err(e);
        },
    };
    state.expected_factory = Option::Some(factory_contract.address.dup());
    let listing_msg = FactoryListingMsg {
        label,
        creator: env.sender.dup(),
        payment_address,
        quantity_for_sale: state.counts.available,
        minter_contract: ContractInfo {
            address: env.contract_address.dup(),
            code_hash: env.contract_code_hash.clone(),
        },
        option_id: "Gumball".to_owned(),
        buy_contract,
        batch_send,
        price,
        closes_at,
        description,
        entropy,
        nft_contract_address: coll.address,
        implements_register_listing: true,
    };
    let mut resp = Response::empty();
    resp.messages.push(
        OutboundMsg::CreateMinterListing {
            factory: factory_contract,
            msg: listing_msg,
            block_size: BLOCK_SIZE,
        },
    );
    Ok(resp)
}

/// The views of a list of displayable addresses.
pub open spec fn human_views(hs: Seq<HumanAddr>) -> Seq<Seq<char>> {
    hs.map_values(|h: HumanAddr| h@)
}

/// Saturating 64-bit addition: the released count's ceiling.
pub open spec fn sat_add64(a: u64, b: u64) -> u64 {
    if a + b > u64::MAX {
        u64::MAX
    } else {
        (a + b) as u64
    }
}

/// The memo a mint's transfers carry: a listing's buyers see the listing,
/// everyone else sees this contract.
pub open spec fn mint_memo(k: MintCaller, sender: Seq<char>, contract_addr: Seq<char>) -> Seq<
    char,
> {
    if k == MintCaller::Listing {
        "Purchased from listing "@ + sender
    } else {
        "Distributed from gumball contract "@ + contract_addr
    }
}

/// The generator key a mint runs under: the persisted seed mixed with the
/// transaction's entropy.
pub open spec fn mint_key(pre: State, env: Env, sender_canon: Seq<u8>, entropy: Seq<char>) -> Seq<
    u8,
> {
    prng_key(
        pre.prng_seed@,
        extended_entropy(
            env.block_height,
            env.block_time,
            env.tx_index,
            sender_canon,
            encode_utf8(entropy),
        ),
    )
}

/// What a mint yields.  The caller resolves to a class (listing, whitelist,
/// admin — in that order); a whitelisted caller mints exactly one and loses
/// the whitelist entry; each buyer, in order, receives the token the
/// keyed generator draws; the counts move by exactly the batch size; the
/// seed advances to fresh generator output; one batch-transfer message
/// carries the coalesced transfers; and the drawn ids are logged.
pub open spec fn mint_post(
    pre: State,
    post: State,
    dir: KeyDirectory,
    env: Env,
    buyers: Seq<HumanAddr>,
    entropy: Seq<char>,
    r: Result<Response, GumballError>,
) -> bool {
    let n = buyers.len();
    match r {
        Ok(resp) => {
            &&& dir.canon_of(env.sender@) matches Some(c) && {
                let key = mint_key(pre, env, c, entropy);
                let ids = drawn_ids(pre.pool_view(), key, 0, n);
                &&& resolve_caller(pre, c) matches Some(k) && {
                    &&& (k == MintCaller::Whitelist ==> n == 1)
                    &&& n <= pre.counts.available
                    &&& dir.human_of(pre.collection.address@) matches Some(coll) && {
                        &&& resp.messages@.len() == 1
                        &&& resp.messages@[0] matches OutboundMsg::BatchTransfer {
                            contract,
                            transfers,
                            block_size,
                        } && contract.address@ == coll && contract.code_hash@
                            == pre.collection.code_hash@ && block_size == BLOCK_SIZE
                            && transfers_view(transfers@) == coalesced_transfers(
                            human_views(buyers),
                            ids,
                            mint_memo(k, env.sender@, env.contract_address@),
                        )
                    }
                    &&& post.pool_view() == pool_after_draws(pre.pool_view(), key, 0, n)
                    &&& post.counts.available == pre.counts.available - n
                    &&& post.counts.released == sat_add64(pre.counts.released, n as u64)
                    &&& post.prng_seed@ == prng_block(key, n as u64)
                    &&& if k == MintCaller::Whitelist {
                        canon_views(post.whitelist@) == roster_remove(
                            canon_views(pre.whitelist@),
                            seq![c],
                        )
                    } else {
                        post.whitelist == pre.whitelist
                    }
                    &&& post.my_address == pre.my_address
                    &&& post.collection == pre.collection
                    &&& post.admins == pre.admins
                    &&& post.listings == pre.listings
                    &&& post.expected_factory == pre.expected_factory
                    &&& post.example == pre.example
                    &&& post.viewing_keys == pre.viewing_keys
                    &&& post.revoked_permits == pre.revoked_permits
                    &&& resp.log@.len() == 1
                    &&& resp.log@[0].key@ == "distributed"@
                    &&& ids_view(resp.log@[0].values@) == ids
                    &&& resp.data is None && resp.dossier_fetch is None
                }
            }
        },
        Err(e) => {
            &&& post == pre
            &&& match e {
                GumballError::AddrUnresolved => {
                    ||| dir.canon_of(env.sender@) is None
                    ||| (dir.canon_of(env.sender@) matches Some(c) && resolve_caller(pre, c)
                        matches Some(k) && (k == MintCaller::Whitelist ==> n == 1) && n
                        <= pre.counts.available && dir.human_of(pre.collection.address@) is None)
                },
                GumballError::Unauthorized => dir.canon_of(env.sender@) matches Some(c)
                    && resolve_caller(pre, c) is None,
                GumballError::WhitelistBatchSizeInvalid => dir.canon_of(env.sender@) matches Some(
                    c,
                ) && resolve_caller(pre, c) == Some(MintCaller::Whitelist) && n != 1,
                GumballError::InsufficientPool { requested, available } => {
                    &&& dir.canon_of(env.sender@) matches Some(c) && resolve_caller(pre, c)
                        matches Some(k) && (k == MintCaller::Whitelist ==> n == 1)
                    &&& n > pre.counts.available
                    &&& requested == n
                    &&& available == pre.counts.available
                },
                _ => false,
            }
        },
    }
}

/// Draws one token for each buyer, in order, and emits the batch transfer.
pub fn try_mint(
    state: &mut State,
    dir: &KeyDirectory,
    env: &Env,
    buyers: Vec<HumanAddr>,
    entropy: &String,
) -> (r: Result<Response, GumballError>)
    requires
        old(state).wf(),
        buyers@.len() <= u32::MAX,
    ensures
        mint_post(*old(state), *final(state), *dir, *env, buyers@, entropy@, r),
        final(state).wf(),
{
    let sender_raw = match dir.canonize(&env.sender) {
        Option::Some(c) => c,
        Option::None => {
            return Err(GumballError::AddrUnresolved);
        },
    };
    let caller = if canon_list_contains(&state.listings, &sender_raw) {
        MintCaller::Listing
    } else if canon_list_contains(&state.whitelist, &sender_raw) {
        MintCaller::Whitelist
    } else if canon_list_contains(&state.admins, &sender_raw) {
        MintCaller::Admin
    } else {
        return Err(GumballError::Unauthorized);
    };
    proof {
        assert(resolve_caller(*state, sender_raw@) == Some(caller));
    }
    let n = buyers.len();
    let is_whitelist = match caller {
        MintCaller::Whitelist => true,
        _ => false,
    };
    if is_whitelist && n != 1 {
        return Err(GumballError::WhitelistBatchSizeInvalid);
    }
    if n > state.counts.available as usize {
        return Err(
            GumballError::InsufficientPool {
                requested: n as u32,
                available: state.counts.available,
            },
        );
    }
    let coll = match state.collection.into_humanized(dir) {
        Ok(c) => c,
        Err(e) => {
            return Err(e);
        },
    };
    let mut memo = String::new();
    match caller {
        MintCaller::Listing => {
            memo.append("Purchased from listing ");
            memo.append(env.sender.0.as_str());
        },
        _ => {
            memo.append("Distributed from gumball contract ");
            memo.append(env.contract_address.0.as_str());
        },
    }
    proof {
        assert(memo@ =~= mint_memo(caller, env.sender@, env.contract_address@));
    }
    if is_whitelist {
        let mut to_remove: Vec<CanonAddr> = Vec::new();
        to_remove.push(sender_raw.dup());
        crate::roster::roster_remove_exec(&mut state.whitelist, &to_remove);
        proof {
            assert(canon_views(to_remove@) =~= seq![sender_raw@]);
        }
    }
    let rng_entropy = extend_entropy(
        env.block_height,
        env.block_time,
        env.tx_index,
        sender_raw.0.as_slice(),
        string_bytes(entropy),
    );
    let mut rng = Prng::new(&state.prng_seed, &rng_entropy);
    let ghost key = rng.key@;
    let ghost pool0 = state.pool_view();
    let ghost s1 = *state;
    let mut transfers: Vec<Transfer> = Vec::new();
    let mut distributed: Vec<String> = Vec::new();
    let mut i: usize = 0;
    proof {
        assert(coalesced_transfers(human_views(buyers@).subrange(0, 0), drawn_ids(pool0, key, 0, 0), memo@)
            =~= transfers_view(transfers@));
        assert(ids_view(distributed@) =~= drawn_ids(pool0, key, 0, 0));
    }
    while i < n
        invariant
            i <= n,
            n == buyers@.len(),
            n <= u32::MAX,
            n <= pool0.len(),
            pool0.len() <= u32::MAX,
            state.pool_view() == pool_after_draws(pool0, key, 0, i as nat),
            state.pool@.len() == pool0.len() - i,
            rng.key@ == key,
            rng.counter == i,
            ids_view(distributed@) == drawn_ids(pool0, key, 0, i as nat),
            transfers_view(transfers@) == coalesced_transfers(
                human_views(buyers@).subrange(0, i as int),
                drawn_ids(pool0, key, 0, i as nat),
                memo@,
            ),
            memo@ == mint_memo(caller, env.sender@, env.contract_address@),
            state.my_address == s1.my_address,
            state.collection == s1.collection,
            state.admins == s1.admins,
            state.whitelist == s1.whitelist,
            state.listings == s1.listings,
            state.counts == s1.counts,
            state.prng_seed == s1.prng_seed,
            state.expected_factory == s1.expected_factory,
            state.example == s1.example,
            state.viewing_keys == s1.viewing_keys,
            state.revoked_permits == s1.revoked_permits,
        decreases n - i,
    {
        let ghost prev = state.pool_view();
        let id = crate::pool::draw_token(&mut state.pool, &mut rng);
        proof {
            assert(state.pool_view() == pool_after_draws(pool0, key, 0, (i + 1) as nat));
            assert(drawn_ids(pool0, key, 0, (i + 1) as nat) == drawn_ids(
                pool0,
                key,
                0,
                i as nat,
            ).push(id@));
        }
        distributed.push(id.clone());
        proof {
            assert(ids_view(distributed@) =~= drawn_ids(pool0, key, 0, (i + 1) as nat));
        }
        add_transfer(&mut transfers, buyers[i].dup(), id, &memo);
        proof {
            let bs = human_views(buyers@);
            assert(bs.subrange(0, i + 1).drop_last() =~= bs.subrange(0, i as int));
            assert(drawn_ids(pool0, key, 0, (i + 1) as nat).drop_last() =~= drawn_ids(
                pool0,
                key,
                0,
                i as nat,
            ));
            assert(bs.subrange(0, i + 1).last() == buyers@[i as int]@);
        }
        i = i + 1;
    }
    state.counts.available = state.counts.available - (n as u32);
    let add: u64 = n as u64;
    if state.counts.released > u64::MAX - add {
        state.counts.released = u64::MAX;
    } else {
        state.counts.released = state.counts.released + add;
    }
    state.prng_seed = rng.rand_bytes();
    let mut resp = Response::empty();
    resp.messages.push(
        OutboundMsg::BatchTransfer { contract: coll, transfers, block_size: BLOCK_SIZE },
    );
    resp.log.push(LogAttribute { key: "distributed".to_owned(), values: distributed });
    proof {
        assert(human_views(buyers@).subrange(0, n as int) =~= human_views(buyers@));
    }
    Ok(resp)
}

/// Whether a list of displayable addresses holds `h`.
pub open spec fn contains_human(hs: Seq<HumanAddr>, h: Seq<char>) -> bool {
    exists|i: int| 0 <= i < hs.len() && hs[i]@ == h
}

/// Whether a permission list carries the owner scope.
pub open spec fn has_owner_permission(ps: Seq<Permission>) -> bool {
    exists|i: int| 0 <= i < ps.len() && ps[i] == Permission::Owner
}

/// The all-zero key hash compared against when an address never set a key,
/// so that the comparison runs either way.
pub open spec fn zero_key() -> Seq<u8> {
    Seq::new(32, |i: int| 0u8)
}

/// The stored hash a viewer's key is compared against.
pub open spec fn stored_key_hash(s: State, c: Seq<u8>) -> Seq<u8> {
    match vk_of(s.viewing_keys@, c) {
        Some(h) => h,
        None => zero_key(),
    }
}

/// Whether the viewer presents the key whose hash is on record.
pub open spec fn viewer_key_matches(s: State, dir: KeyDirectory, v: ViewerInfo) -> bool {
    dir.canon_of(v.address@) matches Some(c) && key_hash(v.viewing_key@) == stored_key_hash(s, c)
}

/// Whether the permit is addressed to this contract.
pub open spec fn permit_audience_ok(s: State, dir: KeyDirectory, p: Permit) -> bool {
    dir.human_of(s.my_address@) matches Some(me) && contains_human(p.params.allowed_tokens@, me)
}

/// Whether the permit has been revoked by its signer.
pub open spec fn permit_revoked(s: State, p: Permit) -> bool {
    revoked_contains(s.revoked_permits@, p.signer@, p.params.permit_name@)
}

/// What identifying a querier yields.  A permit wins over a viewer: it must
/// be addressed to this contract, not revoked, and carry the owner scope;
/// its signer is the querier.  A viewer must present the key whose hash is
/// on record.  Anything else is unauthorized.
pub open spec fn querier_post(
    s: State,
    dir: KeyDirectory,
    viewer: Option<ViewerInfo>,
    permit: Option<Permit>,
    r: Result<CanonAddr, GumballError>,
) -> bool {
    match permit {
        Option::Some(p) => match r {
            Ok(c) => permit_audience_ok(s, dir, p) && !permit_revoked(s, p) && dir.canon_of(
                p.signer@,
            ) == Some(c@) && has_owner_permission(p.params.permissions@),
            Err(e) => match e {
                GumballError::Unauthorized => {
                    ||| (dir.human_of(s.my_address@) matches Some(me) && !contains_human(
                        p.params.allowed_tokens@,
                        me,
                    ))
                    ||| (permit_audience_ok(s, dir, p) && permit_revoked(s, p))
                    ||| (permit_audience_ok(s, dir, p) && !permit_revoked(s, p) && dir.canon_of(
                        p.signer@,
                    ) is Some && !has_owner_permission(p.params.permissions@))
                },
                GumballError::AddrUnresolved => dir.human_of(s.my_address@) is None || (
                permit_audience_ok(s, dir, p) && !permit_revoked(s, p) && dir.canon_of(
                    p.signer@,
                ) is None),
                _ => false,
            },
        },
        Option::None => match viewer {
            Option::Some(v) => match r {
                Ok(c) => dir.canon_of(v.address@) == Some(c@) && viewer_key_matches(s, dir, v),
                Err(e) => match e {
                    GumballError::Unauthorized => dir.canon_of(v.address@) is Some
                        && !viewer_key_matches(s, dir, v),
                    GumballError::AddrUnresolved => dir.canon_of(v.address@) is None,
                    _ => false,
                },
            },
            Option::None => r == Err::<CanonAddr, GumballError>(GumballError::Unauthorized),
        },
    }
}

/// Looks up the viewing-key hash recorded for an address.
fn lookup_vk(entries: &Vec<(CanonAddr, Vec<u8>)>, addr: &CanonAddr) -> (r: Option<Vec<u8>>)
    ensures
        match r {
            Option::Some(h) => vk_of(entries@, addr@) == Some(h@),
            Option::None => vk_of(entries@, addr@) is None,
        },
{
    let mut i: usize = 0;
    proof {
        assert(entries@.skip(0) =~= entries@);
    }
    while i < entries.len()
        invariant
            i <= entries@.len(),
            vk_of(entries@, addr@) == vk_of(entries@.skip(i as int), addr@),
        decreases entries@.len() - i,
    {
        proof {
            assert(entries@.skip(i as int)[0] == entries@[i as int]);
            assert(entries@.skip(i as int).drop_first() =~= entries@.skip(i + 1));
        }
        if entries[i].0.addr_eq(addr) {
            return Option::Some(crate::addr::clone_bytes(&entries[i].1));
        }
        i = i + 1;
    }
    Option::None
}

/// Whether the (signer, name) pair is in the revocation set.
fn is_revoked(entries: &Vec<(HumanAddr, String)>, signer: &HumanAddr, name: &String) -> (r: bool)
    ensures
        r == revoked_contains(entries@, signer@, name@),
{
    let mut i: usize = 0;
    while i < entries.len()
        invariant
            i <= entries@.len(),
            forall|j: int|
                0 <= j < i ==> !(#[trigger] entries@[j].0@ == signer@ && entries@[j].1@
                    == name@),
        decreases entries@.len() - i,
    {
        if entries[i].0.addr_eq(signer) && entries[i].1 == *name {
            return true;
        }
        i = i + 1;
    }
    false
}

/// Whether a list of displayable addresses holds `h`.
fn human_list_contains(hs: &Vec<HumanAddr>, h: &HumanAddr) -> (r: bool)
    ensures
        r == contains_human(hs@, h@),
{
    let mut i: usize = 0;
    while i < hs.len()
        invariant
            i <= hs@.len(),
            forall|j: int| 0 <= j < i ==> hs@[j]@ != h@,
        decreases hs@.len() - i,
    {
        if hs[i].addr_eq(h) {
            return true;
        }
        i = i + 1;
    }
    false
}

/// Whether a permission list carries the owner scope.
fn permissions_have_owner(ps: &Vec<Permission>) -> (r: bool)
    ensures
        r == has_owner_permission(ps@),
{
    let mut i: usize = 0;
    while i < ps.len()
        invariant
            i <= ps@.len(),
            forall|j: int| 0 <= j < i ==> ps@[j] != Permission::Owner,
        decreases ps@.len() - i,
    {
        if ps[i] == Permission::Owner {
            return true;
        }
        i = i + 1;
    }
    false
}

/// Identifies the querying address from a permit or a viewing key.
pub fn get_querier(
    s: &State,
    dir: &KeyDirectory,
    viewer: &Option<ViewerInfo>,
    permit: &Option<Permit>,
) -> (r: Result<CanonAddr, GumballError>)
    ensures
        querier_post(*s, *dir, *viewer, *permit, r),
{
    match permit {
        Option::Some(p) => {
            let me = match dir.humanize(&s.my_address) {
                Option::Some(h) => h,
                Option::None => {
                    return Err(GumballError::AddrUnresolved);
                },
            };
            if !human_list_contains(&p.params.allowed_tokens, &me) {
                return Err(GumballError::Unauthorized);
            }
            if is_revoked(&s.revoked_permits, &p.signer, &p.params.permit_name) {
                return Err(GumballError::Unauthorized);
            }
            let querier = match dir.canonize(&p.signer) {
                Option::Some(c) => c,
                Option::None => {
                    return Err(GumballError::AddrUnresolved);
                },
            };
            if !permissions_have_owner(&p.params.permissions) {
                return Err(GumballError::Unauthorized);
            }
            Ok(querier)
        },
        Option::None => match viewer {
            Option::Some(v) => {
                let raw = match dir.canonize(&v.address) {
                    Option::Some(c) => c,
                    Option::None => {
                        return Err(GumballError::AddrUnresolved);
                    },
                };
                let stored = match lookup_vk(&s.viewing_keys, &raw) {
                    Option::Some(h) => h,
                    Option::None => {
                        let mut zeros: Vec<u8> = Vec::new();
                        let mut i: usize = 0;
                        while i < 32
                            invariant
                                i <= 32,
                                zeros@ =~= Seq::new(i as nat, |j: int| 0u8),
                            decreases 32 - i,
                        {
                            zeros.push(0u8);
                            proof {
                                assert(zeros@ =~= Seq::new((i + 1) as nat, |j: int| 0u8));
                            }
                            i = i + 1;
                        }
                        zeros
                    },
                };
                let vk = ViewingKey(v.viewing_key.clone());
                let hashed = vk.to_hashed();
                let matches_key = hashed == stored;
                proof {
                    if matches_key {
                        assert(hashed@ =~= stored@);
                    }
                }
                if matches_key {
                    Ok(raw)
                } else {
                    Err(GumballError::Unauthorized)
                }
            },
            Option::None => Err(GumballError::Unauthorized),
        },
    }
}

/// What the admin check yields: the querier identified and on the admin
/// list.
pub open spec fn check_admin_post(
    s: State,
    dir: KeyDirectory,
    viewer: Option<ViewerInfo>,
    permit: Option<Permit>,
    r: Result<CanonAddr, GumballError>,
) -> bool {
    match r {
        Ok(c) => querier_post(s, dir, viewer, permit, Ok(c)) && contains_canon(s.admins@, c@),
        Err(e) => {
            ||| (e == GumballError::Unauthorized && exists|c: CanonAddr|
                querier_post(s, dir, viewer, permit, Ok(c)) && !contains_canon(s.admins@, c@))
            ||| querier_post(s, dir, viewer, permit, Err(e))
        },
    }
}

/// Identifies the querier and requires admin membership.
pub fn check_admin(
    s: &State,
    dir: &KeyDirectory,
    viewer: &Option<ViewerInfo>,
    permit: &Option<Permit>,
) -> (r: Result<CanonAddr, GumballError>)
    ensures
        check_admin_post(*s, *dir, *viewer, *permit, r),
{
    let querier = match get_querier(s, dir, viewer, permit) {
        Ok(c) => c,
        Err(e) => {
            return Err(e);
        },
    };
    if !canon_list_contains(&s.admins, &querier) {
        return Err(GumballError::Unauthorized);
    }
    Ok(querier)
}

/// What the counts query answers: the stored counts, exactly.
pub open spec fn counts_answer_post(s: State, r: QueryAnswer) -> bool {
    r matches QueryAnswer::Counts { available, released } && available == s.counts.available
        && released == s.counts.released
}

/// Answers the public counts query.
pub fn query_counts(s: &State) -> (r: QueryAnswer)
    ensures
        counts_answer_post(*s, r),
{
    QueryAnswer::Counts { available: s.counts.available, released: s.counts.released }
}

/// What the collection query answers: the primary collection, displayable.
pub open spec fn nft_contract_answer_post(
    s: State,
    dir: KeyDirectory,
    r: Result<QueryAnswer, GumballError>,
) -> bool {
    match r {
        Ok(a) => a matches QueryAnswer::NftContract { code_hash, address } && code_hash@
            == s.collection.code_hash@ && dir.human_of(s.collection.address@) == Some(address@),
        Err(e) => e == GumballError::AddrUnresolved && dir.human_of(s.collection.address@) is None,
    }
}

/// Answers the public collection query.
pub fn query_nft_contract(s: &State, dir: &KeyDirectory) -> (r: Result<
    QueryAnswer,
    GumballError,
>)
    ensures
        nft_contract_answer_post(*s, *dir, r),
{
    let contract = match s.collection.into_humanized(dir) {
        Ok(c) => c,
        Err(e) => {
            return Err(e);
        },
    };
    Ok(QueryAnswer::NftContract { code_hash: contract.code_hash, address: contract.address })
}

/// What the listing-display query answers: the example dossier (or the
/// empty dossier when none is cached), the collection address, and whether
/// one more token can be drawn.
pub open spec fn listing_display_post(
    s: State,
    dir: KeyDirectory,
    r: Result<QueryAnswer, GumballError>,
) -> bool {
    match r {
        Ok(a) => a matches QueryAnswer::NftListingDisplay {
            nft_info,
            nft_contract_address,
            mintable,
        } && {
            &&& match s.example {
                Option::Some(st) => dossier_human_rel(st, nft_info, dir),
                Option::None => nft_info.public_metadata is None && nft_info.royalty_info is None
                    && nft_info.mint_run_info is None,
            }
            &&& dir.human_of(s.collection.address@) == Some(nft_contract_address@)
            &&& mintable == (s.counts.available > 0)
        },
        Err(e) => e == GumballError::AddrUnresolved && (dir.human_of(s.collection.address@) is None
            || (s.example matches Some(st) && !dossier_humanizable(st, dir))),
    }
}

/// Answers the public listing-display query.
pub fn query_listing_disp(s: &State, dir: &KeyDirectory) -> (r: Result<
    QueryAnswer,
    GumballError,
>)
    ensures
        listing_display_post(*s, *dir, r),
{
    let address = match dir.humanize(&s.collection.address) {
        Option::Some(h) => h,
        Option::None => {
            return Err(GumballError::AddrUnresolved);
        },
    };
    let nft_info = match &s.example {
        Option::Some(st) => match st.into_humanized(dir) {
            Ok(d) => d,
            Err(e) => {
                return Err(e);
            },
        },
        Option::None => NftDossierForListing::default_empty(),
    };
    Ok(
        QueryAnswer::NftListingDisplay {
            nft_info,
            nft_contract_address: address,
            mintable: s.counts.available > 0,
        },
    )
}

/// What the admins query answers: the admin list, displayable, to an
/// authenticated admin only.
pub open spec fn admins_answer_post(
    s: State,
    dir: KeyDirectory,
    viewer: Option<ViewerInfo>,
    permit: Option<Permit>,
    r: Result<QueryAnswer, GumballError>,
) -> bool {
    match r {
        Ok(a) => {
            &&& exists|c: CanonAddr|
                querier_post(s, dir, viewer, permit, Ok(c)) && contains_canon(s.admins@, c@)
            &&& a matches QueryAnswer::Admins { admins } && humanized_of_views(
                dir,
                canon_views(s.admins@),
                admins@,
            )
        },
        Err(e) => {
            ||| check_admin_post(s, dir, viewer, permit, Err(e))
            ||| (e == GumballError::AddrUnresolved && !views_humanizable(
                dir,
                canon_views(s.admins@),
            ))
        },
    }
}

/// Answers the admins query for an authenticated admin.
pub fn query_admins(
    s: &State,
    dir: &KeyDirectory,
    viewer: &Option<ViewerInfo>,
    permit: &Option<Permit>,
) -> (r: Result<QueryAnswer, GumballError>)
    ensures
        admins_answer_post(*s, *dir, *viewer, *permit, r),
{
    let querier = match check_admin(s, dir, viewer, permit) {
        Ok(c) => c,
        Err(e) => {
            return Err(e);
        },
    };
    let humanized = match humanize_list(dir, &s.admins) {
        Ok(hs) => hs,
        Err(e) => {
            return Err(e);
        },
    };
    proof {
        assert forall|i: int| 0 <= i < canon_views(s.admins@).len() implies dir.human_of(
            #[trigger] canon_views(s.admins@)[i],
        ) == Some(humanized@[i]@) by {
            assert(dir.human_of(s.admins@[i]@) == Some(humanized@[i]@));
        }
    }
    Ok(QueryAnswer::Admins { admins: humanized })
}

/// Routes a query to its handler.
pub fn query(
    s: &State,
    dir: &KeyDirectory,
    msg: QueryMsg,
) -> (r: Result<QueryAnswer, GumballError>)
    ensures
        match msg {
            QueryMsg::Admins { viewer, permit } => admins_answer_post(*s, *dir, viewer, permit, r),
            QueryMsg::NftListingDisplay {  } => listing_display_post(*s, *dir, r),
            QueryMsg::Counts {  } => r matches Ok(a) && counts_answer_post(*s, a),
            QueryMsg::NftContract {  } => nft_contract_answer_post(*s, *dir, r),
        },
{
    match msg {
        QueryMsg::Admins { viewer, permit } => query_admins(s, dir, &viewer, &permit),
        QueryMsg::NftListingDisplay {  } => query_listing_disp(s, dir),
        QueryMsg::Counts {  } => Ok(query_counts(s)),
        QueryMsg::NftContract {  } => query_nft_contract(s, dir),
    }
}

/// Routes an executable message to its handler.  The single-token receive
/// is serviced as a one-element batch.
pub fn handle(state: &mut State, dir: &KeyDirectory, env: &Env, msg: HandleMsg) -> (r: Result<
    Response,
    GumballError,
>)
    requires
        old(state).wf(),
        match msg {
            HandleMsg::Mint { buyers, .. } => buyers@.len() <= u32::MAX,
            _ => true,
        },
    ensures
        final(state).wf(),
        match msg {
            HandleMsg::BatchReceiveNft { from, token_ids } => batch_receive_post(
                *old(state),
                *final(state),
                *dir,
                env.sender@,
                from@,
                token_ids@,
                r,
            ),
            HandleMsg::ReceiveNft { sender, token_id } => batch_receive_post(
                *old(state),
                *final(state),
                *dir,
                env.sender@,
                sender@,
                seq![token_id],
                r,
            ),
            HandleMsg::CreateViewingKey { entropy } => create_key_post(
                *old(state),
                *final(state),
                *dir,
                *env,
                entropy@,
                r,
            ),
            HandleMsg::SetViewingKey { key, .. } => set_key_post(
                *old(state),
                *final(state),
                *dir,
                env.sender@,
                key@,
                r,
            ),
            HandleMsg::AddAdmins { admins } => update_admins_post(
                *old(state),
                *final(state),
                *dir,
                env.sender@,
                admins@,
                true,
                r,
            ),
            HandleMsg::RemoveAdmins { admins } => update_admins_post(
                *old(state),
                *final(state),
                *dir,
                env.sender@,
                admins@,
                false,
                r,
            ),
            HandleMsg::AddToWhitelist { addresses } => whitelist_update_post(
                *old(state),
                *final(state),
                *dir,
                env.sender@,
                addresses@,
                true,
                r,
            ),
            HandleMsg::RemoveFromWhitelist { addresses } => whitelist_update_post(
                *old(state),
                *final(state),
                *dir,
                env.sender@,
                addresses@,
                false,
                r,
            ),
            HandleMsg::Mint { buyers, entropy } => mint_post(
                *old(state),
                *final(state),
                *dir,
                *env,
                buyers@,
                entropy@,
                r,
            ),
            HandleMsg::CreateListing {
                label,
                payment_address,
                factory_contract,
                buy_contract,
                batch_send,
                price,
                closes_at,
                description,
                entropy,
            } => create_listing_post(
                *old(state),
                *final(state),
                *dir,
                *env,
                label@,
                payment_address,
                factory_contract.address@,
                factory_contract.code_hash@,
                buy_contract.address@,
                buy_contract.code_hash@,
                batch_send,
                price,
                closes_at,
                description,
                entropy@,
                r,
            ),
            HandleMsg::RegisterListing { listing_address } => register_listing_post(
                *old(state),
                *final(state),
                *dir,
                env.sender@,
                listing_address@,
                r,
            ),
            HandleMsg::RevokePermit { permit_name } => revoke_permit_post(
                *old(state),
                *final(state),
                env.sender@,
                permit_name@,
                r,
            ),
            HandleMsg::SetViewingKeyWithCollection { nft_contract, viewing_key } => *final(state)
                == *old(state) && set_key_with_coll_post(
                *old(state),
                *dir,
                env.sender@,
                nft_contract.address@,
                nft_contract.code_hash@,
                viewing_key@,
                r,
            ),
            HandleMsg::RetrieveNft { nft_contract, token_ids } => *final(state) == *old(state)
                && retrieve_post(
                *old(state),
                *dir,
                *env,
                nft_contract.address@,
                nft_contract.code_hash@,
                token_ids@,
                r,
            ),
        },
{
    match msg {
        HandleMsg::BatchReceiveNft { from, token_ids } => {
            try_batch_receive(state, dir, &env.sender, &from, token_ids)
        },
        HandleMsg::ReceiveNft { sender, token_id } => {
            let mut ids: Vec<String> = Vec::new();
            ids.push(token_id);
            proof {
                assert(ids@ =~= seq![ids@[0]]);
            }
            try_batch_receive(state, dir, &env.sender, &sender, ids)
        },
        HandleMsg::CreateViewingKey { entropy } => try_create_key(state, dir, env, &entropy),
        HandleMsg::SetViewingKey { key, .. } => try_set_key(state, dir, &env.sender, key),
        HandleMsg::AddAdmins { admins } => try_add_admins(state, dir, &env.sender, &admins),
        HandleMsg::RemoveAdmins { admins } => try_remove_admins(state, dir, &env.sender, &admins),
        HandleMsg::AddToWhitelist { addresses } => try_update_whitelist(
            state,
            dir,
            &env.sender,
            &addresses,
            true,
        ),
        HandleMsg::RemoveFromWhitelist { addresses } => try_update_whitelist(
            state,
            dir,
            &env.sender,
            &addresses,
            false,
        ),
        HandleMsg::Mint { buyers, entropy } => try_mint(state, dir, env, buyers, &entropy),
        HandleMsg::CreateListing {
            label,
            payment_address,
            factory_contract,
            buy_contract,
            batch_send,
            price,
            closes_at,
            description,
            entropy,
        } => try_create_listing(
            state,
            dir,
            env,
            label,
            payment_address,
            factory_contract,
            buy_contract,
            batch_send,
            price,
            closes_at,
            description,
            entropy,
        ),
        HandleMsg::RegisterListing { listing_address } => try_register_listing(
            state,
            dir,
            &env.sender,
            &listing_address,
        ),
        HandleMsg::RevokePermit { permit_name } => revoke_permit(state, &env.sender, &permit_name),
        HandleMsg::SetViewingKeyWithCollection { nft_contract, viewing_key } => {
            try_set_key_with_coll(state, dir, &env.sender, nft_contract, viewing_key)
        },
        HandleMsg::RetrieveNft { nft_contract, token_ids } => {
            try_retrieve(state, dir, env, nft_contract, token_ids)
        },
    }
}

} // verus!
