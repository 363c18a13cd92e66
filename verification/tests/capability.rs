use std::cell::RefCell;

use ce_iam_core_wasm::{verify, verify_chain, AuthorizeRequest, JsonInput, VaultError};

fn hex_of(byte: u8) -> String {
    format!("{:02x}", byte).repeat(32)
}

fn parse_numbers(text: &str) -> Result<Vec<u64>, String> {
    serde_json::from_str(text).map_err(|error| error.to_string())
}

struct Inputs {
    self_id: String,
    roots: String,
    tags: String,
    requester: String,
    chain: String,
    revoked: String,
}

fn inputs() -> Inputs {
    Inputs {
        self_id: hex_of(1),
        roots: format!("[\"{}\", \" {} \"]", hex_of(2), hex_of(3)),
        tags: "[\"gpu\",\"eu\"]".to_string(),
        requester: hex_of(4),
        chain: "[10,20]".to_string(),
        revoked: format!("[[\"{}\",5],[\"{}\",18446744073709551615]]", hex_of(2), hex_of(3)),
    }
}

fn check(inputs: &Inputs) -> Result<(), VaultError> {
    verify_chain(
        &inputs.self_id,
        &inputs.roots,
        &inputs.tags,
        99,
        &inputs.requester,
        "run",
        &inputs.chain,
        &inputs.revoked,
        parse_numbers,
        |_: &AuthorizeRequest, _: &Vec<u64>| Ok(()),
    )
}

fn fault_of(inputs: &Inputs) -> (JsonInput, String) {
    match check(inputs) {
        Err(VaultError::Json { input, cause }) => (input, cause),
        other => panic!("{:?}", other),
    }
}

#[test]
fn the_authorizer_sees_what_was_read() {
    let inputs = inputs();
    let seen = RefCell::new(false);
    let result = verify_chain(
        &inputs.self_id,
        &inputs.roots,
        &inputs.tags,
        99,
        &inputs.requester,
        "run",
        &inputs.chain,
        &inputs.revoked,
        parse_numbers,
        |request: &AuthorizeRequest, chain: &Vec<u64>| {
            *seen.borrow_mut() = true;
            assert_eq!(request.self_id, [1u8; 32]);
            assert_eq!(request.accepted_roots, vec![[2u8; 32], [3u8; 32]]);
            assert_eq!(request.self_tags, vec!["gpu".to_string(), "eu".to_string()]);
            assert_eq!(request.now, 99);
            assert_eq!(request.requester, [4u8; 32]);
            assert_eq!(request.action, "run");
            assert_eq!(request.revoked, vec![([2u8; 32], 5), ([3u8; 32], u64::MAX)]);
            assert_eq!(chain, &vec![10, 20]);
            Ok(())
        },
    );
    assert!(result.is_ok());
    assert!(*seen.borrow());
}

#[test]
fn revocation_is_by_issuer_and_nonce() {
    let inputs = inputs();
    let result = verify_chain(
        &inputs.self_id,
        &inputs.roots,
        &inputs.tags,
        99,
        &inputs.requester,
        "run",
        &inputs.chain,
        &inputs.revoked,
        parse_numbers,
        |request: &AuthorizeRequest, _: &Vec<u64>| {
            assert!(request.is_revoked(&[2u8; 32], 5));
            assert!(request.is_revoked(&[3u8; 32], u64::MAX));
            assert!(!request.is_revoked(&[2u8; 32], u64::MAX));
            assert!(!request.is_revoked(&[3u8; 32], 5));
            assert!(!request.is_revoked(&[1u8; 32], 5));
            Ok(())
        },
    );
    assert!(result.is_ok());
}

#[test]
fn a_denial_carries_the_reason() {
    let inputs = inputs();
    let denied = verify_chain(
        &inputs.self_id,
        &inputs.roots,
        &inputs.tags,
        99,
        &inputs.requester,
        "run",
        &inputs.chain,
        &inputs.revoked,
        parse_numbers,
        |_: &AuthorizeRequest, _: &Vec<u64>| Err("empty capability chain".to_string()),
    );
    match denied {
        Err(VaultError::Denied(reason)) => assert_eq!(reason, "empty capability chain"),
        other => panic!("{:?}", other),
    }
}

#[test]
fn an_unreadable_chain_never_reaches_the_authorizer() {
    let mut inputs = inputs();
    inputs.chain = "[\"x\"]".to_string();
    let result = verify_chain(
        &inputs.self_id,
        &inputs.roots,
        &inputs.tags,
        99,
        &inputs.requester,
        "run",
        &inputs.chain,
        &inputs.revoked,
        parse_numbers,
        |_: &AuthorizeRequest, _: &Vec<u64>| panic!("must not be asked"),
    );
    let error = result.unwrap_err();
    assert_eq!(error.message(), "parse capability chain JSON");
    match error {
        VaultError::Json { input, cause } => {
            assert_eq!(input, JsonInput::CapabilityChain);
            assert_eq!(cause, parse_numbers("[\"x\"]").unwrap_err());
        }
        other => panic!("{:?}", other),
    }
}

#[test]
fn the_first_fault_is_reported() {
    let mut inputs = inputs();
    inputs.revoked = "[[\"zz\",1]]".to_string();
    assert_eq!(check(&inputs).unwrap_err().message(), "node id is not valid hex");
    inputs.revoked = "{}".to_string();
    assert_eq!(fault_of(&inputs).0, JsonInput::Revoked);
    inputs.chain = "".to_string();
    assert_eq!(
        fault_of(&inputs),
        (
            JsonInput::CapabilityChain,
            "EOF while parsing a value at line 1 column 0".to_string()
        )
    );
    inputs.tags = "[1]".to_string();
    assert_eq!(fault_of(&inputs).0, JsonInput::SelfTags);
    inputs.roots = "[\"00\"]".to_string();
    assert_eq!(
        check(&inputs).unwrap_err().message(),
        "node id must be 32 bytes (64 hex chars)"
    );
    inputs.roots = "\"00\"".to_string();
    assert_eq!(fault_of(&inputs).0, JsonInput::AcceptedRoots);
    inputs.requester = "q".to_string();
    assert_eq!(check(&inputs).unwrap_err().message(), "node id is not valid hex");
    inputs.self_id = "00".to_string();
    assert_eq!(
        check(&inputs).unwrap_err().message(),
        "node id must be 32 bytes (64 hex chars)"
    );
}

#[test]
fn revoked_pairs_are_a_string_and_an_unsigned_number() {
    let mut inputs = inputs();
    let id = hex_of(9);
    for bad in [
        format!("[[\"{}\"]]", id),
        format!("[[\"{}\",1,2]]", id),
        format!("[[\"{}\",-1]]", id),
        format!("[[\"{}\",1.0]]", id),
        format!("[[\"{}\",18446744073709551616]]", id),
        format!("[[1,\"{}\"]]", id),
        format!("[\"{}\",1]", id),
        "null".to_string(),
    ] {
        inputs.revoked = bad;
        let (input, cause) = fault_of(&inputs);
        assert_eq!(input, JsonInput::Revoked);
        assert_eq!(
            cause,
            serde_json::from_str::<Vec<(String, u64)>>(&inputs.revoked)
                .unwrap_err()
                .to_string()
        );
    }
    inputs.revoked = " [ ] ".to_string();
    assert!(check(&inputs).is_ok());
}

#[test]
fn the_contexts_of_json_faults() {
    assert_eq!(
        JsonInput::Snapshot.context(),
        "parse snapshot JSON (expected an object of key -> record)"
    );
    assert_eq!(
        JsonInput::GrantNames.context(),
        "parse grant secret-names JSON (expected an array of strings)"
    );
    assert_eq!(JsonInput::AuthProof.context(), "parse auth proof JSON");
    assert_eq!(JsonInput::AcceptedRoots.context(), "parse accepted_roots JSON");
    assert_eq!(JsonInput::SelfTags.context(), "parse self_tags JSON");
    assert_eq!(JsonInput::CapabilityChain.context(), "parse capability chain JSON");
    assert_eq!(
        JsonInput::Revoked.context(),
        "parse revoked JSON (array of [hex, nonce])"
    );
}

#[test]
fn verify_gives_true_or_throws() {
    let inputs = inputs();
    let ask = |self_id: &str, chain: &str, verdict: Result<(), String>| {
        verify(
            self_id,
            &inputs.roots,
            &inputs.tags,
            99,
            &inputs.requester,
            "run",
            chain,
            &inputs.revoked,
            parse_numbers,
            |_: &AuthorizeRequest, _: &Vec<u64>| verdict,
        )
    };
    assert_eq!(ask(&inputs.self_id, "[]", Ok(())), Ok(true));
    assert_eq!(
        ask(&inputs.self_id, "[]", Err("expired".to_string())),
        Err("expired".to_string())
    );
    assert_eq!(
        ask(&inputs.self_id, "", Ok(())),
        Err("parse capability chain JSON".to_string())
    );
    assert_eq!(
        ask("zz", "[]", Ok(())),
        Err("node id is not valid hex".to_string())
    );
}

#[test]
fn an_empty_chain_is_denied() {
    let mut inputs = inputs();
    for chain in ["[]", "null", "{", ""] {
        inputs.chain = chain.to_string();
        let result = verify_chain(
            &inputs.self_id,
            &inputs.roots,
            &inputs.tags,
            99,
            &inputs.requester,
            "run",
            &inputs.chain,
            &inputs.revoked,
            parse_numbers,
            |_: &AuthorizeRequest, links: &Vec<u64>| {
                if links.is_empty() {
                    Err("no chain".to_string())
                } else {
                    Ok(())
                }
            },
        );
        assert!(result.is_err());
    }
}

/// A link of a chain: its issuer, given by one byte, and its nonce.
fn parse_links(text: &str) -> Result<Vec<(u8, u64)>, String> {
    serde_json::from_str(text).map_err(|error| error.to_string())
}

fn deny_revoked(request: &AuthorizeRequest, links: &Vec<(u8, u64)>) -> Result<(), String> {
    for (issuer, nonce) in links {
        if request.is_revoked(&[*issuer; 32], *nonce) {
            return Err(format!("link {} is revoked", nonce));
        }
    }
    Ok(())
}

fn check_links(revoked: &str) -> Result<(), String> {
    verify_chain(
        &hex_of(1),
        "[]",
        "[]",
        99,
        &hex_of(4),
        "run",
        "[[2,5],[3,6]]",
        revoked,
        parse_links,
        deny_revoked,
    )
    .map_err(|error| error.message())
}

#[test]
fn a_revoked_link_denies_the_chain() {
    assert_eq!(check_links("[]"), Ok(()));
    let second = format!("[[\"{}\",1],[\"{}\",6]]", hex_of(9), hex_of(3));
    assert_eq!(check_links(&second), Err("link 6 is revoked".to_string()));
    let first = format!("[[\"{}\",5]]", hex_of(2));
    assert_eq!(check_links(&first), Err("link 5 is revoked".to_string()));
}

#[test]
fn a_revocation_that_hits_no_link_changes_nothing() {
    let crossed = format!("[[\"{}\",6],[\"{}\",5]]", hex_of(2), hex_of(3));
    assert_eq!(check_links(&crossed), check_links("[]"));
}

#[test]
fn equal_checks_come_out_alike() {
    let first = format!("[[\"{}\",5]]", hex_of(2));
    for revoked in ["[]", first.as_str(), "{"] {
        let before = check_links(revoked);
        let _ = check_links(&first);
        let _ = check_links("nonsense");
        let _ = check_links("[]");
        assert_eq!(check_links(revoked), before);
    }
}

#[test]
fn verify_follows_verify_chain() {
    let first = format!("[[\"{}\",5]]", hex_of(2));
    for revoked in ["[]", first.as_str(), "{", "[[\"zz\",1]]"] {
        let verified = verify(
            &hex_of(1),
            "[]",
            "[]",
            99,
            &hex_of(4),
            "run",
            "[[2,5],[3,6]]",
            revoked,
            parse_links,
            deny_revoked,
        );
        assert_eq!(verified, check_links(revoked).map(|()| true));
    }
}
