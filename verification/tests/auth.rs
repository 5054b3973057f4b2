//! Admin edits, viewing keys, permits, and response padding.

use gumball::addr::{CanonAddr, ContractInfo, HumanAddr, KeyDirectory};
use gumball::contract::{handle, init, query};
use gumball::error::GumballError;
use gumball::msg::{
    Env, HandleAnswer, HandleMsg, InitMsg, Permission, Permit, PermitParams, QueryAnswer,
    QueryMsg, ViewerInfo,
};
use gumball::padding::space_pad;
use gumball::state::State;

fn human(name: &str) -> HumanAddr {
    HumanAddr(name.to_string())
}

fn canon_bytes(name: &str) -> Vec<u8> {
    let mut b = b"canon:".to_vec();
    b.extend_from_slice(name.as_bytes());
    b
}

fn directory(names: &[&str]) -> KeyDirectory {
    let mut pairs = Vec::new();
    for n in names {
        pairs.push((human(n), CanonAddr(canon_bytes(n))));
    }
    KeyDirectory { pairs }
}

fn env_for(sender: &str) -> Env {
    Env {
        block_height: 42,
        block_time: 1_600_000_000,
        tx_index: None,
        sender: human(sender),
        contract_address: human("gumball"),
        contract_code_hash: "gumhash".to_string(),
    }
}

fn fresh() -> (State, KeyDirectory) {
    let dir = directory(&["gumball", "alice", "bob", "carol", "coll", "w"]);
    let msg = InitMsg {
        nft_contract: ContractInfo {
            address: human("coll"),
            code_hash: "collhash".to_string(),
        },
        entropy: "seed me".to_string(),
    };
    let (state, _resp) = init(&env_for("alice"), msg, &dir).expect("init");
    (state, dir)
}

fn admin_views(state: &State) -> Vec<Vec<u8>> {
    state.admins.iter().map(|a| a.0.clone()).collect()
}

fn owner_permit(signer: &str, name: &str, audience: &str) -> Permit {
    Permit {
        params: PermitParams {
            allowed_tokens: vec![human(audience)],
            permit_name: name.to_string(),
            permissions: vec![Permission::Owner],
        },
        signer: human(signer),
    }
}

#[test]
fn p9_admin_edits_are_idempotent() {
    let (mut state, dir) = fresh();
    let before = admin_views(&state);

    // Adding an existing admin changes nothing.
    let msg = HandleMsg::AddAdmins {
        admins: vec![human("alice")],
    };
    let resp = handle(&mut state, &dir, &env_for("alice"), msg).expect("add");
    assert_eq!(admin_views(&state), before);
    match resp.data {
        Some(HandleAnswer::AdminsList { admins }) => {
            assert_eq!(admins.len(), 1);
            assert_eq!(admins[0].0, "alice");
        }
        _ => panic!("wrong answer"),
    }

    // Removing a non-member changes nothing.
    let msg = HandleMsg::RemoveAdmins {
        admins: vec![human("carol")],
    };
    handle(&mut state, &dir, &env_for("alice"), msg).expect("remove");
    assert_eq!(admin_views(&state), before);

    // A real addition appends once, even when named twice.
    let msg = HandleMsg::AddAdmins {
        admins: vec![human("bob"), human("bob")],
    };
    let resp = handle(&mut state, &dir, &env_for("alice"), msg).expect("add");
    assert_eq!(
        admin_views(&state),
        vec![canon_bytes("alice"), canon_bytes("bob")]
    );
    match resp.data {
        Some(HandleAnswer::AdminsList { admins }) => {
            let names: Vec<&str> = admins.iter().map(|a| a.0.as_str()).collect();
            assert_eq!(names, vec!["alice", "bob"]);
        }
        _ => panic!("wrong answer"),
    }

    // A real removal filters the address out.
    let msg = HandleMsg::RemoveAdmins {
        admins: vec![human("bob")],
    };
    handle(&mut state, &dir, &env_for("alice"), msg).expect("remove");
    assert_eq!(admin_views(&state), before);
}

#[test]
fn admin_edits_require_admin() {
    let (mut state, dir) = fresh();
    let msg = HandleMsg::AddAdmins {
        admins: vec![human("bob")],
    };
    let r = handle(&mut state, &dir, &env_for("bob"), msg);
    assert_eq!(r.unwrap_err(), GumballError::Unauthorized);

    let msg = HandleMsg::AddToWhitelist {
        addresses: vec![human("w")],
    };
    let r = handle(&mut state, &dir, &env_for("bob"), msg);
    assert_eq!(r.unwrap_err(), GumballError::Unauthorized);
}

#[test]
fn whitelist_removal_disarms_the_address() {
    let (mut state, dir) = fresh();
    let msg = HandleMsg::BatchReceiveNft {
        from: human("alice"),
        token_ids: vec!["t1".to_string()],
    };
    handle(&mut state, &dir, &env_for("coll"), msg).expect("stock");

    let msg = HandleMsg::AddToWhitelist {
        addresses: vec![human("w")],
    };
    handle(&mut state, &dir, &env_for("alice"), msg).expect("add");
    assert_eq!(state.whitelist.len(), 1);

    let msg = HandleMsg::RemoveFromWhitelist {
        addresses: vec![human("w")],
    };
    handle(&mut state, &dir, &env_for("alice"), msg).expect("remove");
    assert!(state.whitelist.is_empty());

    let msg = HandleMsg::Mint {
        buyers: vec![human("w")],
        entropy: "z".to_string(),
    };
    let r = handle(&mut state, &dir, &env_for("w"), msg);
    assert_eq!(r.unwrap_err(), GumballError::Unauthorized);
}

#[test]
fn created_viewing_key_authenticates_admin_query() {
    let (mut state, dir) = fresh();
    let msg = HandleMsg::CreateViewingKey {
        entropy: "key entropy".to_string(),
    };
    let resp = handle(&mut state, &dir, &env_for("alice"), msg).expect("create key");
    let key = match resp.data {
        Some(HandleAnswer::ViewingKey { key }) => key,
        _ => panic!("wrong answer"),
    };
    // The key is fresh output, not the entropy echoed back.
    assert!(key.starts_with("api_key_"));
    assert_ne!(key, "key entropy");

    let q = QueryMsg::Admins {
        viewer: Some(ViewerInfo {
            address: human("alice"),
            viewing_key: key.clone(),
        }),
        permit: None,
    };
    match query(&state, &dir, q).expect("admins") {
        QueryAnswer::Admins { admins } => {
            assert_eq!(admins.len(), 1);
            assert_eq!(admins[0].0, "alice");
        }
        _ => panic!("wrong answer"),
    }

    // A wrong key is refused.
    let q = QueryMsg::Admins {
        viewer: Some(ViewerInfo {
            address: human("alice"),
            viewing_key: "guess".to_string(),
        }),
        permit: None,
    };
    assert_eq!(query(&state, &dir, q).unwrap_err(), GumballError::Unauthorized);

    // A non-admin with a valid key of their own is refused.
    let msg = HandleMsg::SetViewingKey {
        key: "bobs key".to_string(),
        padding: None,
    };
    handle(&mut state, &dir, &env_for("bob"), msg).expect("set key");
    let q = QueryMsg::Admins {
        viewer: Some(ViewerInfo {
            address: human("bob"),
            viewing_key: "bobs key".to_string(),
        }),
        permit: None,
    };
    assert_eq!(query(&state, &dir, q).unwrap_err(), GumballError::Unauthorized);
}

#[test]
fn set_viewing_key_echoes_and_authenticates() {
    let (mut state, dir) = fresh();
    let msg = HandleMsg::SetViewingKey {
        key: "open sesame".to_string(),
        padding: Some("pppp".to_string()),
    };
    let resp = handle(&mut state, &dir, &env_for("alice"), msg).expect("set key");
    match resp.data {
        Some(HandleAnswer::ViewingKey { key }) => assert_eq!(key, "open sesame"),
        _ => panic!("wrong answer"),
    }
    let q = QueryMsg::Admins {
        viewer: Some(ViewerInfo {
            address: human("alice"),
            viewing_key: "open sesame".to_string(),
        }),
        permit: None,
    };
    assert!(query(&state, &dir, q).is_ok());
}

#[test]
fn permit_needs_owner_scope_audience_and_standing() {
    let (mut state, dir) = fresh();

    // A well-formed owner permit from an admin works.
    let q = QueryMsg::Admins {
        viewer: None,
        permit: Some(owner_permit("alice", "p1", "gumball")),
    };
    assert!(query(&state, &dir, q).is_ok());

    // The permit wins over a bogus viewer.
    let q = QueryMsg::Admins {
        viewer: Some(ViewerInfo {
            address: human("bob"),
            viewing_key: "nope".to_string(),
        }),
        permit: Some(owner_permit("alice", "p1", "gumball")),
    };
    assert!(query(&state, &dir, q).is_ok());

    // Wrong audience.
    let q = QueryMsg::Admins {
        viewer: None,
        permit: Some(owner_permit("alice", "p1", "coll")),
    };
    assert_eq!(query(&state, &dir, q).unwrap_err(), GumballError::Unauthorized);

    // Missing owner scope.
    let mut p = owner_permit("alice", "p1", "gumball");
    p.params.permissions = vec![Permission::Balance];
    let q = QueryMsg::Admins {
        viewer: None,
        permit: Some(p),
    };
    assert_eq!(query(&state, &dir, q).unwrap_err(), GumballError::Unauthorized);

    // A non-admin signer.
    let q = QueryMsg::Admins {
        viewer: None,
        permit: Some(owner_permit("bob", "p1", "gumball")),
    };
    assert_eq!(query(&state, &dir, q).unwrap_err(), GumballError::Unauthorized);

    // A revoked permit no longer works; an unrevoked name still does.
    let msg = HandleMsg::RevokePermit {
        permit_name: "p1".to_string(),
    };
    let resp = handle(&mut state, &dir, &env_for("alice"), msg).expect("revoke");
    match resp.data {
        Some(HandleAnswer::RevokePermit { status }) => assert_eq!(status, "success"),
        _ => panic!("wrong answer"),
    }
    let q = QueryMsg::Admins {
        viewer: None,
        permit: Some(owner_permit("alice", "p1", "gumball")),
    };
    assert_eq!(query(&state, &dir, q).unwrap_err(), GumballError::Unauthorized);
    let q = QueryMsg::Admins {
        viewer: None,
        permit: Some(owner_permit("alice", "p2", "gumball")),
    };
    assert!(query(&state, &dir, q).is_ok());
}

#[test]
fn p10_every_padded_body_is_a_block_multiple() {
    for len in [0usize, 1, 17, 255, 256, 257, 511, 512, 1000] {
        let mut body: Vec<u8> = (0..len).map(|i| (i % 251) as u8).collect();
        let original = body.clone();
        space_pad(&mut body);
        assert_eq!(body.len() % 256, 0, "length {len}");
        assert!(body.len() >= len && body.len() < len + 256);
        assert_eq!(&body[..len], &original[..]);
        assert!(body[len..].iter().all(|b| *b == b' '));
    }
}
