use oatproxy::config::ProxyConfig;
use oatproxy::crypto::SigningKey;
use oatproxy::dpop::{verify_at, DpopError, NonceMode, VerifyOptions};
use oatproxy::error::Error;
use oatproxy::jwk::Jwk;
use oatproxy::memory::MemoryStore;
use oatproxy::par::PARRequest;
use oatproxy::server::OAuthProxyServer;
use oatproxy::signing::sign_proof;
use oatproxy::store::{KeyStore, NonceStore};
use oatproxy::token::TokenManager;

const NOW: i64 = 1_700_000_000;
const HTU: &str = "https://proxy.example/oauth/par";

/// A store whose every operation fails.
struct BrokenStore;

impl NonceStore for BrokenStore {
    fn check_and_consume_nonce(&mut self, _jti: &str, _now: i64) -> Result<bool, Error> {
        Err(Error::StorageError("nonce table is gone".to_string()))
    }

    fn cleanup_expired(&mut self, _before: i64) -> Result<(), Error> {
        Err(Error::StorageError("nonce table is gone".to_string()))
    }
}

impl KeyStore for BrokenStore {
    fn get_signing_key(&self) -> Result<SigningKey, Error> {
        Err(Error::KeyNotFound)
    }
}

fn working() -> MemoryStore {
    MemoryStore::new(SigningKey::from_bytes(vec![9u8; 32]))
}

fn signed_by_client(jti: &str, nonce: Option<&str>) -> String {
    let key = Jwk::from_secret(&[7u8; 32]).expect("a key pair");
    sign_proof(&key, "POST", HTU, None, nonce, jti, NOW).ok().expect("a proof")
}

fn pushed_request() -> PARRequest {
    PARRequest {
        client_id: "client-1".to_string(),
        redirect_uri: "https://client.example/cb".to_string(),
        response_type: "code".to_string(),
        state: None,
        scope: None,
        code_challenge: Some("c".to_string()),
        code_challenge_method: Some("S256".to_string()),
        login_hint: Some("alice.example".to_string()),
    }
}

#[test]
fn a_failing_replay_store_stops_verification() {
    let mut store = BrokenStore;
    let text = signed_by_client("j1", None);
    let options = VerifyOptions { nonce_mode: NonceMode::Disabled, client_id: None };
    match verify_at(&mut store, &text, HTU, "POST", None, &options, NOW) {
        Err(DpopError::Store(message)) => assert_eq!(message, "storage error: nonce table is gone"),
        _ => panic!("expected a store failure"),
    }
    assert!(store.cleanup_expired(NOW).is_err());
}

#[test]
fn a_failing_replay_store_is_a_server_error_for_par() {
    let config =
        ProxyConfig::new("https://proxy.example", vec![1u8; 32]).unwrap();
    let mut server = OAuthProxyServer::builder()
        .config(config)
        .session_store(working())
        .key_store(working())
        .nonce_store(BrokenStore)
        .build()
        .ok()
        .unwrap();
    let first = signed_by_client("j1", None);
    let nonce = match server.handle_par_at(Some(&first), pushed_request(), "s1", NOW) {
        Err(Error::DpopNonceRequired(n)) => n,
        _ => panic!("expected a nonce challenge"),
    };
    let second = signed_by_client("j2", Some(&nonce));
    match server.handle_par_at(Some(&second), pushed_request(), "s1", NOW) {
        Err(error) => {
            assert!(matches!(error, Error::StorageError(_)));
            assert_eq!(error.status_code(), 500);
        }
        Ok(_) => panic!("expected a storage error"),
    }
}

#[test]
fn a_failing_key_store_passes_its_error_on() {
    let manager = TokenManager::new("https://proxy.example".to_string());
    let store = BrokenStore;
    assert!(matches!(
        manager.issue_downstream_jwt("did:plc:alice", "J", "atproto", 60, &store),
        Err(Error::KeyNotFound)
    ));
    let good = manager
        .issue_downstream_jwt_at(
            "did:plc:alice",
            "J",
            "atproto",
            60,
            &SigningKey::from_bytes(vec![9u8; 32]),
            NOW,
        )
        .ok()
        .unwrap();
    assert!(matches!(manager.validate_downstream_jwt(&good, &store), Err(Error::KeyNotFound)));
    match manager.validate_downstream_jwt("not-a-token", &store) {
        Err(Error::InvalidRequest(text)) => assert_eq!(text, "invalid JWT format"),
        _ => panic!("expected an invalid request"),
    }
    assert_eq!(Error::KeyNotFound.status_code(), 500);
}

#[test]
fn a_failing_key_store_fails_the_key_set() {
    let server = OAuthProxyServer::builder()
        .config(ProxyConfig::new("https://proxy.example", vec![7u8; 32]).unwrap())
        .session_store(working())
        .key_store(BrokenStore)
        .nonce_store(working())
        .build()
        .ok()
        .unwrap();
    assert!(matches!(server.handle_jwks(), Err(Error::KeyNotFound)));
}

#[test]
fn what_is_decided_before_a_store_is_asked_holds_with_failing_stores() {
    let mut server = OAuthProxyServer::builder()
        .config(ProxyConfig::new("https://proxy.example", vec![1u8; 32]).unwrap())
        .session_store(working())
        .key_store(BrokenStore)
        .nonce_store(BrokenStore)
        .build()
        .ok()
        .unwrap();
    assert!(matches!(server.handle_par(None, pushed_request()), Err(Error::DpopProofRequired)));
    let mut faulty = pushed_request();
    faulty.client_id = String::new();
    match server.handle_par(Some(&signed_by_client("j1", None)), faulty) {
        Err(Error::InvalidRequest(text)) => assert_eq!(text, "missing client_id"),
        _ => panic!("expected an invalid request"),
    }
    assert!(matches!(
        server.handle_par(Some("not-a-proof"), pushed_request()),
        Err(Error::DpopInvalid)
    ));
    let request = |grant_type: &str| oatproxy::grant::TokenRequest {
        grant_type: grant_type.to_string(),
        code: None,
        refresh_token: None,
        client_id: None,
        redirect_uri: None,
    };
    assert!(matches!(
        server.handle_token(None, request("authorization_code")),
        Err(Error::DpopProofRequired)
    ));
    let header = signed_by_client("j2", None);
    assert!(matches!(
        server.handle_token(Some(&header), request("password")),
        Err(Error::InvalidGrant)
    ));
    match server.handle_token(Some(&header), request("refresh_token")) {
        Err(Error::InvalidRequest(text)) => assert_eq!(text, "missing refresh_token"),
        _ => panic!("expected an invalid request"),
    }
    assert!(matches!(server.handle_revoke(None), Err(Error::DpopProofRequired)));
    assert!(matches!(
        server.handle_xrpc_proxy(None, Some(&header), "GET", "/xrpc/x"),
        Err(Error::Unauthorized)
    ));
    assert!(matches!(
        server.handle_xrpc_proxy(Some("Basic abc"), Some(&header), "GET", "/xrpc/x"),
        Err(Error::Unauthorized)
    ));
    assert!(matches!(
        server.handle_xrpc_proxy(Some("DPoP not-a-token"), Some(&header), "GET", "/xrpc/x"),
        Err(Error::Unauthorized)
    ));
    let token = TokenManager::new("https://proxy.example".to_string())
        .issue_downstream_jwt_at(
            "did:plc:alice",
            "J",
            "atproto",
            60,
            &SigningKey::from_bytes(vec![9u8; 32]),
            NOW,
        )
        .ok()
        .unwrap();
    assert!(matches!(
        server.handle_xrpc_proxy(Some(&format!("DPoP {token}")), Some(&header), "GET", "/xrpc/x"),
        Err(Error::KeyNotFound)
    ));
}
