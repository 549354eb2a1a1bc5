use cast_core::auth::{
    build_session, complete_session, derive_identity, validate_key, AuthError, HandshakeOutcome,
};
use cast_core::command::{default_network_endpoint, flatten_publish_error, send_cast};
use cast_core::publish::{
    on_handshake, on_submit, publish, start_publish, ParentReference, PublishError,
    PublishRequest, SubmitOutcome,
};

const ENDPOINT: &str = "https://social-node.example:443";

#[test]
fn build_is_deterministic_for_equal_keys() {
    let s1 = build_session("valid-key-1", ENDPOINT).unwrap();
    let s2 = build_session("valid-key-1", ENDPOINT).unwrap();
    assert_eq!(s1.identity, s2.identity);
    assert_eq!(s1.network_endpoint, s2.network_endpoint);
}

#[test]
fn distinct_keys_derive_distinct_identities_here() {
    let s1 = build_session("valid-key-1", ENDPOINT).unwrap();
    let s2 = build_session("valid-key-2", ENDPOINT).unwrap();
    assert_ne!(s1.identity, s2.identity);
}

#[test]
fn derive_identity_is_pure() {
    assert_eq!(derive_identity("valid-key-1"), derive_identity("valid-key-1"));
}

#[test]
fn identity_digest_exact_value() {
    // seed 5381, folded once: 5381 * 31 + 'a' = 166811 + 97 = 166908
    assert_eq!(derive_identity("a"), 166908);
    assert_eq!(derive_identity(""), 5381);
}

#[test]
fn validate_key_accepts_the_key_alphabet() {
    assert!(validate_key("valid-key-1"));
    assert!(validate_key("0"));
    assert!(validate_key("A-9-z"));
}

#[test]
fn validate_key_rejects_malformed_encodings() {
    assert!(!validate_key(""));
    assert!(!validate_key("not-a-key"));
    assert!(!validate_key("bad key 1"));
    assert!(!validate_key("key!1"));
}

#[test]
fn invalid_key_fails_build_before_any_handshake() {
    match build_session("not-a-key", ENDPOINT) {
        Err(AuthError::InvalidKey) => {}
        _ => panic!("an invalid key must fail the build with InvalidKey"),
    }
    match build_session("", ENDPOINT) {
        Err(AuthError::InvalidKey) => {}
        _ => panic!("an empty key must fail the build with InvalidKey"),
    }
}

#[test]
fn handshake_rejection_fails_session_init() {
    let h = build_session("valid-key-1", ENDPOINT).unwrap();
    match complete_session(h, HandshakeOutcome::Rejected) {
        Err(AuthError::SessionInitFailed) => {}
        _ => panic!("a rejected handshake must fail with SessionInitFailed"),
    }
}

#[test]
fn accepted_handshake_yields_session_with_same_identity() {
    let h = build_session("valid-key-1", ENDPOINT).unwrap();
    let id = h.identity;
    let s = complete_session(h, HandshakeOutcome::Accepted).unwrap();
    assert_eq!(s.identity, id);
    assert_eq!(s.network_endpoint, ENDPOINT.to_string());
}

#[test]
fn submission_carries_message_and_parent() {
    let req = PublishRequest {
        secret_key: "valid-key-1".to_string(),
        message: "hello world".to_string(),
        parent_reference: Some(ParentReference {
            cast_id: "cast-42".to_string(),
            author_id: 7,
        }),
    };
    let h = start_publish(&req, ENDPOINT).unwrap();
    let sub = on_handshake(h, HandshakeOutcome::Accepted, &req).unwrap();
    assert_eq!(sub.message, "hello world".to_string());
    assert_eq!(sub.network_endpoint, ENDPOINT.to_string());
    match sub.parent_reference {
        Some(p) => {
            assert_eq!(p.cast_id, "cast-42".to_string());
            assert_eq!(p.author_id, 7);
        }
        None => panic!("the reply reference must be carried through"),
    }
}

#[test]
fn submit_rejection_becomes_remote_error() {
    match on_submit(SubmitOutcome::Rejected("rate limited".to_string())) {
        Err(PublishError::Remote(reason)) => assert_eq!(reason, "rate limited".to_string()),
        _ => panic!("a rejected submission must fail with Remote"),
    }
}

#[test]
fn publish_single_attempt_maps_every_outcome() {
    let req = PublishRequest {
        secret_key: "valid-key-1".to_string(),
        message: "hello".to_string(),
        parent_reference: None,
    };
    assert!(publish(&req, ENDPOINT, HandshakeOutcome::Accepted, SubmitOutcome::Accepted).is_ok());
    match publish(&req, ENDPOINT, HandshakeOutcome::Rejected, SubmitOutcome::Accepted) {
        Err(PublishError::Auth(AuthError::SessionInitFailed)) => {}
        _ => panic!("a rejected handshake must surface as Auth(SessionInitFailed)"),
    }
    match publish(&req, ENDPOINT, HandshakeOutcome::Accepted, SubmitOutcome::Rejected("no".to_string())) {
        Err(PublishError::Remote(reason)) => assert_eq!(reason, "no".to_string()),
        _ => panic!("a rejected submission must surface as Remote"),
    }
}

#[test]
fn flattened_error_texts_are_exact() {
    assert_eq!(
        flatten_publish_error(PublishError::Auth(AuthError::InvalidKey)),
        "authentication failed: invalid key".to_string()
    );
    assert_eq!(
        flatten_publish_error(PublishError::Auth(AuthError::SessionInitFailed)),
        "authentication failed: session initialization failed".to_string()
    );
    assert_eq!(
        flatten_publish_error(PublishError::Remote("rate limited".to_string())),
        "cast rejected: rate limited".to_string()
    );
}

#[test]
fn send_cast_valid_key_reachable_network_ok() {
    let r = send_cast(
        "valid-key-1",
        "hello world",
        HandshakeOutcome::Accepted,
        SubmitOutcome::Accepted,
    );
    assert_eq!(r, Ok(()));
}

#[test]
fn send_cast_invalid_key_errs_without_consulting_network() {
    // the network answers are adversarial: if the call consulted them, the
    // error would not be the authentication one
    let r = send_cast(
        "not-a-key",
        "hello",
        HandshakeOutcome::Rejected,
        SubmitOutcome::Rejected("unreached".to_string()),
    );
    assert_eq!(r, Err("authentication failed: invalid key".to_string()));
}

#[test]
fn send_cast_flattens_remote_rejection() {
    let r = send_cast(
        "valid-key-1",
        "hello",
        HandshakeOutcome::Accepted,
        SubmitOutcome::Rejected("malformed content".to_string()),
    );
    assert_eq!(r, Err("cast rejected: malformed content".to_string()));
}

#[test]
fn endpoint_is_fixed() {
    assert_eq!(default_network_endpoint(), ENDPOINT);
}
