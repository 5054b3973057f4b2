//! End-to-end scenarios against an in-memory state, with the real outside
//! crates linked.

use gumball::addr::{CanonAddr, ContractInfo, HumanAddr, KeyDirectory};
use gumball::contract::{handle, init, query, set_example};
use gumball::error::GumballError;
use gumball::msg::{Env, HandleAnswer, HandleMsg, InitMsg, OutboundMsg, QueryAnswer, QueryMsg};
use gumball::snip721::{Metadata, NftDossierForListing};
use gumball::state::State;

fn human(name: &str) -> HumanAddr {
    HumanAddr(name.to_string())
}

fn canon_bytes(name: &str) -> Vec<u8> {
    let mut b = b"canon:".to_vec();
    b.extend_from_slice(name.as_bytes());
    b
}

/// A directory resolving every named address both ways.
fn directory(names: &[&str]) -> KeyDirectory {
    let mut pairs = Vec::new();
    for n in names {
        pairs.push((human(n), CanonAddr(canon_bytes(n))));
    }
    KeyDirectory { pairs }
}

fn env_for(sender: &str) -> Env {
    Env {
        block_height: 12_345,
        block_time: 1_700_000_000,
        tx_index: Some(7),
        sender: human(sender),
        contract_address: human("gumball"),
        contract_code_hash: "gumhash".to_string(),
    }
}

const ALL_NAMES: &[&str] = &[
    "gumball", "alice", "coll", "factory", "listing", "u1", "u2", "w", "bob", "carol", "x", "d",
];

/// A freshly instantiated contract: admin "alice", collection "coll".
fn fresh() -> (State, KeyDirectory) {
    let dir = directory(ALL_NAMES);
    let msg = InitMsg {
        nft_contract: ContractInfo {
            address: human("coll"),
            code_hash: "collhash".to_string(),
        },
        entropy: "init entropy".to_string(),
    };
    let (state, resp) = init(&env_for("alice"), msg, &dir).expect("init");
    assert!(resp.data.is_none());
    assert_eq!(resp.messages.len(), 1);
    (state, dir)
}

/// Stocks the machine with the given ids, reported by the collection for
/// admin "alice".
fn stock(state: &mut State, dir: &KeyDirectory, ids: &[&str]) {
    let msg = HandleMsg::BatchReceiveNft {
        from: human("alice"),
        token_ids: ids.iter().map(|s| s.to_string()).collect(),
    };
    handle(state, dir, &env_for("coll"), msg).expect("stock");
}

fn mint(
    state: &mut State,
    dir: &KeyDirectory,
    sender: &str,
    buyers: &[&str],
    entropy: &str,
) -> Result<gumball::msg::Response, GumballError> {
    let msg = HandleMsg::Mint {
        buyers: buyers.iter().map(|b| human(b)).collect(),
        entropy: entropy.to_string(),
    };
    handle(state, dir, &env_for(sender), msg)
}

#[test]
fn init_derives_seed_from_hashed_base64_entropy() {
    let (state, _dir) = fresh();
    assert_eq!(state.counts.available, 0);
    assert_eq!(state.counts.released, 0);
    assert_eq!(state.admins.len(), 1);
    assert_eq!(state.admins[0].0, canon_bytes("alice"));
    assert_eq!(state.my_address.0, canon_bytes("gumball"));
    assert_eq!(state.collection.address.0, canon_bytes("coll"));
    assert_eq!(state.collection.code_hash, "collhash");
    // The seed must be the digest of the base64 rendering of the entropy,
    // computed here with the same outside crates the library calls.
    let expected =
        secret_toolkit_crypto::sha_256(base64::encode("init entropy".as_bytes()).as_bytes());
    assert_eq!(state.prng_seed, expected.to_vec());
    // The wrappers must not hand their input back unchanged.
    assert_ne!(state.prng_seed, b"init entropy".to_vec());
}

#[test]
fn init_emits_register_receive() {
    let (_state, dir) = fresh();
    let msg = InitMsg {
        nft_contract: ContractInfo {
            address: human("coll"),
            code_hash: "collhash".to_string(),
        },
        entropy: "e".to_string(),
    };
    let (_s, resp) = init(&env_for("alice"), msg, &dir).expect("init");
    match &resp.messages[0] {
        OutboundMsg::RegisterReceive {
            contract,
            minter_code_hash,
            also_implements_batch_receive,
            block_size,
        } => {
            assert_eq!(contract.address.0, "coll");
            assert_eq!(contract.code_hash, "collhash");
            assert_eq!(minter_code_hash, "gumhash");
            assert!(*also_implements_batch_receive);
            assert_eq!(*block_size, 256);
        }
        _ => panic!("wrong outbound message"),
    }
}

#[test]
fn s1_stock_and_preview() {
    let (mut state, dir) = fresh();
    let msg = HandleMsg::BatchReceiveNft {
        from: human("alice"),
        token_ids: vec!["t1".to_string(), "t2".to_string(), "t3".to_string()],
    };
    let resp = handle(&mut state, &dir, &env_for("coll"), msg).expect("deposit");
    assert_eq!(resp.dossier_fetch.as_deref(), Some("t1"));
    assert_eq!(state.counts.available, 3);
    assert_eq!(state.counts.released, 0);
    assert_eq!(state.pool, vec!["t1", "t2", "t3"]);

    // The host fetches t1's dossier and hands it back.
    let dossier = NftDossierForListing {
        public_metadata: Some(Metadata {
            token_uri: Some("ipfs://t1".to_string()),
            extension: None,
        }),
        royalty_info: None,
        mint_run_info: None,
    };
    set_example(&mut state, &dir, &dossier).expect("example");

    match query(&state, &dir, QueryMsg::Counts {}).expect("counts") {
        QueryAnswer::Counts { available, released } => {
            assert_eq!(available, 3);
            assert_eq!(released, 0);
        }
        _ => panic!("wrong answer"),
    }
    match query(&state, &dir, QueryMsg::NftListingDisplay {}).expect("display") {
        QueryAnswer::NftListingDisplay {
            nft_info,
            nft_contract_address,
            mintable,
        } => {
            assert!(mintable);
            assert_eq!(nft_contract_address.0, "coll");
            let meta = nft_info.public_metadata.expect("metadata");
            assert_eq!(meta.token_uri.as_deref(), Some("ipfs://t1"));
        }
        _ => panic!("wrong answer"),
    }
    match query(&state, &dir, QueryMsg::NftContract {}).expect("contract") {
        QueryAnswer::NftContract { code_hash, address } => {
            assert_eq!(code_hash, "collhash");
            assert_eq!(address.0, "coll");
        }
        _ => panic!("wrong answer"),
    }
}

#[test]
fn s2_admin_mint_coalesces_and_drains() {
    let (mut state, dir) = fresh();
    stock(&mut state, &dir, &["t1", "t2", "t3"]);
    let resp = mint(&mut state, &dir, "alice", &["u1", "u1", "u2"], "x").expect("mint");
    assert_eq!(state.counts.available, 0);
    assert_eq!(state.counts.released, 3);
    assert!(state.pool.is_empty());

    assert_eq!(resp.messages.len(), 1);
    match &resp.messages[0] {
        OutboundMsg::BatchTransfer {
            contract,
            transfers,
            block_size,
        } => {
            assert_eq!(contract.address.0, "coll");
            assert_eq!(*block_size, 256);
            assert_eq!(transfers.len(), 2);
            assert_eq!(transfers[0].recipient.0, "u1");
            assert_eq!(transfers[0].token_ids.len(), 2);
            assert_eq!(
                transfers[0].memo,
                "Distributed from gumball contract gumball"
            );
            assert_eq!(transfers[1].recipient.0, "u2");
            assert_eq!(transfers[1].token_ids.len(), 1);
            assert_eq!(
                transfers[1].memo,
                "Distributed from gumball contract gumball"
            );
        }
        _ => panic!("wrong outbound message"),
    }
    assert_eq!(resp.log.len(), 1);
    assert_eq!(resp.log[0].key, "distributed");
    let mut distributed = resp.log[0].values.clone();
    distributed.sort();
    assert_eq!(distributed, vec!["t1", "t2", "t3"]);
}

#[test]
fn s3_whitelist_single_use() {
    let (mut state, dir) = fresh();
    stock(&mut state, &dir, &["t1", "t2", "t3"]);
    let msg = HandleMsg::AddToWhitelist {
        addresses: vec![human("w")],
    };
    handle(&mut state, &dir, &env_for("alice"), msg).expect("whitelist");

    let resp = mint(&mut state, &dir, "w", &["w"], "y").expect("free mint");
    match &resp.messages[0] {
        OutboundMsg::BatchTransfer { transfers, .. } => {
            assert_eq!(transfers.len(), 1);
            assert_eq!(transfers[0].recipient.0, "w");
            assert_eq!(transfers[0].token_ids.len(), 1);
        }
        _ => panic!("wrong outbound message"),
    }
    assert!(state.whitelist.is_empty());
    let again = mint(&mut state, &dir, "w", &["w"], "z");
    assert_eq!(again.unwrap_err(), GumballError::Unauthorized);
}

#[test]
fn whitelist_batch_must_be_one() {
    let (mut state, dir) = fresh();
    stock(&mut state, &dir, &["t1", "t2"]);
    let msg = HandleMsg::AddToWhitelist {
        addresses: vec![human("w")],
    };
    handle(&mut state, &dir, &env_for("alice"), msg).expect("whitelist");
    let r = mint(&mut state, &dir, "w", &["w", "w"], "y");
    assert_eq!(r.unwrap_err(), GumballError::WhitelistBatchSizeInvalid);
    // The entry must survive the refused call.
    assert_eq!(state.whitelist.len(), 1);
}

#[test]
fn s4_handshake() {
    let (mut state, dir) = fresh();
    stock(&mut state, &dir, &["t1", "t2"]);
    let create = HandleMsg::CreateListing {
        label: "gum sale".to_string(),
        payment_address: None,
        factory_contract: ContractInfo {
            address: human("factory"),
            code_hash: "fachash".to_string(),
        },
        buy_contract: ContractInfo {
            address: human("x"),
            code_hash: "buyhash".to_string(),
        },
        batch_send: true,
        price: 1_000_000u128,
        closes_at: 2_000_000_000,
        description: Some("two tokens".to_string()),
        entropy: "listing entropy".to_string(),
    };
    let resp = handle(&mut state, &dir, &env_for("alice"), create).expect("create listing");
    assert_eq!(state.expected_factory.as_ref().map(|f| f.0.as_str()), Some("factory"));
    match &resp.messages[0] {
        OutboundMsg::CreateMinterListing { factory, msg, .. } => {
            assert_eq!(factory.address.0, "factory");
            assert_eq!(factory.code_hash, "fachash");
            assert_eq!(msg.label, "gum sale");
            assert_eq!(msg.creator.0, "alice");
            assert_eq!(msg.quantity_for_sale, 2);
            assert_eq!(msg.minter_contract.address.0, "gumball");
            assert_eq!(msg.option_id, "Gumball");
            assert_eq!(msg.price, 1_000_000u128);
            assert_eq!(msg.closes_at, 2_000_000_000);
            assert_eq!(msg.nft_contract_address.0, "coll");
            assert!(msg.implements_register_listing);
        }
        _ => panic!("wrong outbound message"),
    }

    // A stranger may not register.
    let reg = HandleMsg::RegisterListing {
        listing_address: human("listing"),
    };
    let r = handle(&mut state, &dir, &env_for("x"), reg);
    assert_eq!(r.unwrap_err(), GumballError::ExpectedFactoryMismatch);

    // The armed factory may, exactly once.
    let reg = HandleMsg::RegisterListing {
        listing_address: human("listing"),
    };
    handle(&mut state, &dir, &env_for("factory"), reg).expect("register");
    assert!(state.expected_factory.is_none());
    assert_eq!(state.listings.len(), 1);
    assert_eq!(state.listings[0].0, canon_bytes("listing"));

    let reg = HandleMsg::RegisterListing {
        listing_address: human("listing"),
    };
    let r = handle(&mut state, &dir, &env_for("factory"), reg);
    assert_eq!(r.unwrap_err(), GumballError::ExpectedFactoryAbsent);

    // The registered listing may request mints, under its own memo.
    let resp = mint(&mut state, &dir, "listing", &["u1"], "q").expect("listing mint");
    match &resp.messages[0] {
        OutboundMsg::BatchTransfer { transfers, .. } => {
            assert_eq!(transfers[0].memo, "Purchased from listing listing");
        }
        _ => panic!("wrong outbound message"),
    }
}

#[test]
fn s5_spoofed_deposit_is_rejected() {
    let (mut state, dir) = fresh();
    let msg = HandleMsg::BatchReceiveNft {
        from: human("alice"),
        token_ids: vec!["t9".to_string()],
    };
    let r = handle(&mut state, &dir, &env_for("x"), msg);
    assert_eq!(r.unwrap_err(), GumballError::SpoofedSender);
    assert_eq!(state.counts.available, 0);
    assert!(state.pool.is_empty());
}

#[test]
fn deposit_from_non_admin_is_rejected() {
    let (mut state, dir) = fresh();
    let msg = HandleMsg::BatchReceiveNft {
        from: human("bob"),
        token_ids: vec!["t9".to_string()],
    };
    let r = handle(&mut state, &dir, &env_for("coll"), msg);
    assert_eq!(r.unwrap_err(), GumballError::Unauthorized);
    assert_eq!(state.counts.available, 0);
}

#[test]
fn single_receive_is_a_one_element_batch() {
    let (mut state, dir) = fresh();
    let msg = HandleMsg::ReceiveNft {
        sender: human("alice"),
        token_id: "solo".to_string(),
    };
    let resp = handle(&mut state, &dir, &env_for("coll"), msg).expect("receive");
    assert_eq!(state.counts.available, 1);
    assert_eq!(state.pool, vec!["solo"]);
    assert_eq!(resp.dossier_fetch.as_deref(), Some("solo"));
}

#[test]
fn s6_recovery_paths_refuse_primary_collection() {
    let (mut state, dir) = fresh();
    stock(&mut state, &dir, &["t1"]);
    let msg = HandleMsg::RetrieveNft {
        nft_contract: ContractInfo {
            address: human("coll"),
            code_hash: "collhash".to_string(),
        },
        token_ids: vec!["t1".to_string()],
    };
    let r = handle(&mut state, &dir, &env_for("alice"), msg);
    assert_eq!(r.unwrap_err(), GumballError::NotPrimaryCollection);

    let msg = HandleMsg::SetViewingKeyWithCollection {
        nft_contract: ContractInfo {
            address: human("coll"),
            code_hash: "collhash".to_string(),
        },
        viewing_key: "vk".to_string(),
    };
    let r = handle(&mut state, &dir, &env_for("alice"), msg);
    assert_eq!(r.unwrap_err(), GumballError::NotPrimaryCollection);

    // Against a different collection both succeed.
    let msg = HandleMsg::RetrieveNft {
        nft_contract: ContractInfo {
            address: human("d"),
            code_hash: "dhash".to_string(),
        },
        token_ids: vec!["t1".to_string()],
    };
    let resp = handle(&mut state, &dir, &env_for("alice"), msg).expect("retrieve");
    match &resp.messages[0] {
        OutboundMsg::BatchTransfer {
            contract, transfers, ..
        } => {
            assert_eq!(contract.address.0, "d");
            assert_eq!(transfers[0].recipient.0, "alice");
            assert_eq!(transfers[0].token_ids, vec!["t1"]);
            assert_eq!(transfers[0].memo, "Retrieved from gumball: gumball");
        }
        _ => panic!("wrong outbound message"),
    }
    match resp.data {
        Some(HandleAnswer::RetrieveNft { status }) => assert_eq!(status, "success"),
        _ => panic!("wrong answer"),
    }
    // The pool is untouched by recovery.
    assert_eq!(state.counts.available, 1);

    let msg = HandleMsg::SetViewingKeyWithCollection {
        nft_contract: ContractInfo {
            address: human("d"),
            code_hash: "dhash".to_string(),
        },
        viewing_key: "vk".to_string(),
    };
    let resp = handle(&mut state, &dir, &env_for("alice"), msg).expect("set key");
    match &resp.messages[0] {
        OutboundMsg::SetViewingKey { contract, key, .. } => {
            assert_eq!(contract.address.0, "d");
            assert_eq!(key, "vk");
        }
        _ => panic!("wrong outbound message"),
    }
}

#[test]
fn recovery_is_admin_only() {
    let (mut state, dir) = fresh();
    let msg = HandleMsg::RetrieveNft {
        nft_contract: ContractInfo {
            address: human("d"),
            code_hash: "dhash".to_string(),
        },
        token_ids: vec!["t1".to_string()],
    };
    let r = handle(&mut state, &dir, &env_for("bob"), msg);
    assert_eq!(r.unwrap_err(), GumballError::Unauthorized);
}

#[test]
fn p3_mint_is_deterministic_under_replay() {
    let run = || {
        let (mut state, dir) = fresh();
        stock(&mut state, &dir, &["a", "b", "c", "d", "e"]);
        let resp = mint(&mut state, &dir, "alice", &["u1", "u2", "u1"], "x").expect("mint");
        resp.log[0].values.clone()
    };
    assert_eq!(run(), run());
}

#[test]
fn p4_entropy_flip_changes_distribution() {
    let run = |entropy: &str, height: u64| {
        let (mut state, dir) = fresh();
        stock(
            &mut state,
            &dir,
            &["a", "b", "c", "d", "e", "f", "g", "h", "i", "j"],
        );
        let msg = HandleMsg::Mint {
            buyers: (0..10).map(|_| human("u1")).collect(),
            entropy: entropy.to_string(),
        };
        let mut env = env_for("alice");
        env.block_height = height;
        let resp = handle(&mut state, &dir, &env, msg).expect("mint");
        resp.log[0].values.clone()
    };
    // Flipping the caller entropy changes the drawn order.
    assert_ne!(run("x", 12_345), run("y", 12_345));
    // Flipping the environment entropy changes the drawn order.
    assert_ne!(run("x", 12_345), run("x", 12_344));
}

#[test]
fn p5_counts_move_by_batch_size() {
    let (mut state, dir) = fresh();
    stock(&mut state, &dir, &["t1", "t2", "t3"]);
    mint(&mut state, &dir, "alice", &["u1", "u2"], "x").expect("mint");
    assert_eq!(state.counts.available, 1);
    assert_eq!(state.counts.released, 2);
    mint(&mut state, &dir, "alice", &["u1"], "x").expect("mint");
    assert_eq!(state.counts.available, 0);
    assert_eq!(state.counts.released, 3);
}

#[test]
fn insufficient_pool_reports_both_numbers() {
    let (mut state, dir) = fresh();
    stock(&mut state, &dir, &["t1"]);
    let r = mint(&mut state, &dir, "alice", &["u1", "u2"], "x");
    assert_eq!(
        r.unwrap_err(),
        GumballError::InsufficientPool {
            requested: 2,
            available: 1
        }
    );
    assert_eq!(state.counts.available, 1);
}

#[test]
fn mint_by_stranger_is_unauthorized() {
    let (mut state, dir) = fresh();
    stock(&mut state, &dir, &["t1"]);
    let r = mint(&mut state, &dir, "bob", &["bob"], "x");
    assert_eq!(r.unwrap_err(), GumballError::Unauthorized);
}

#[test]
fn empty_mint_still_advances_the_seed() {
    let (mut state, dir) = fresh();
    stock(&mut state, &dir, &["t1"]);
    let seed_before = state.prng_seed.clone();
    let resp = mint(&mut state, &dir, "alice", &[], "x").expect("mint");
    assert_eq!(state.counts.available, 1);
    assert_eq!(state.counts.released, 0);
    assert_ne!(state.prng_seed, seed_before);
    assert_eq!(resp.log[0].values.len(), 0);
}

#[test]
fn mint_draw_matches_reference_formula() {
    let (mut state, dir) = fresh();
    stock(&mut state, &dir, &["t1", "t2", "t3"]);
    let seed = state.prng_seed.clone();

    // Recompute the first draw with the outside crates alone: the generator
    // key is the digest of seed and mixed transaction entropy; the draw is
    // the first eight output bytes, little-endian, reduced modulo the pool.
    let mut material = Vec::new();
    material.extend_from_slice(&12_345u64.to_le_bytes());
    material.extend_from_slice(&1_700_000_000u64.to_le_bytes());
    material.extend_from_slice(&7u64.to_le_bytes());
    material.extend_from_slice(&canon_bytes("alice"));
    material.extend_from_slice(b"x");
    let tx_entropy = secret_toolkit_crypto::sha_256(&material);

    let mut key_material = seed.clone();
    key_material.extend_from_slice(&tx_entropy);
    let key = secret_toolkit_crypto::sha_256(&key_material);

    let mut block_material = key.to_vec();
    block_material.extend_from_slice(&0u64.to_le_bytes());
    let block = secret_toolkit_crypto::sha_256(&block_material);
    let draw = u64::from_le_bytes(block[..8].try_into().unwrap());
    let winner = (draw % 3) as usize;
    let expected = state.pool[winner].clone();

    let resp = mint(&mut state, &dir, "alice", &["u1"], "x").expect("mint");
    assert_eq!(resp.log[0].values, vec![expected]);
}

#[test]
fn failed_dossier_fetch_folds_to_empty_example() {
    let (mut state, dir) = fresh();
    stock(&mut state, &dir, &["t1"]);
    // The host's dossier query failed: it hands the empty dossier.
    set_example(&mut state, &dir, &NftDossierForListing::default_empty()).expect("example");
    match query(&state, &dir, QueryMsg::NftListingDisplay {}).expect("display") {
        QueryAnswer::NftListingDisplay { nft_info, mintable, .. } => {
            assert!(mintable);
            assert!(nft_info.public_metadata.is_none());
            assert!(nft_info.royalty_info.is_none());
            assert!(nft_info.mint_run_info.is_none());
        }
        _ => panic!("wrong answer"),
    }
}

#[test]
fn dossier_with_unresolvable_royalty_is_refused() {
    let (mut state, dir) = fresh();
    let dossier = NftDossierForListing {
        public_metadata: None,
        royalty_info: Some(gumball::snip721::RoyaltyInfo {
            decimal_places_in_rates: 3,
            royalties: vec![gumball::snip721::Royalty {
                recipient: Some(human("stranger")),
                rate: 100,
            }],
        }),
        mint_run_info: None,
    };
    let r = set_example(&mut state, &dir, &dossier);
    assert_eq!(r.unwrap_err(), GumballError::AddrUnresolved);
    assert!(state.example.is_none());
}

#[test]
fn unresolved_address_is_reported() {
    let (mut state, dir) = fresh();
    let r = mint(&mut state, &dir, "nobody", &["u1"], "x");
    assert_eq!(r.unwrap_err(), GumballError::AddrUnresolved);
}
