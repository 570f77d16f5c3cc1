use oatproxy::config::ProxyConfig;
use oatproxy::crypto::SigningKey;
use oatproxy::error::Error;
use oatproxy::jwk::Jwk;
use oatproxy::memory::MemoryStore;
use oatproxy::par::PARRequest;
use oatproxy::server::OAuthProxyServer;
use oatproxy::signing::sign_proof;

const NOW: i64 = 1_700_000_000;

fn memory() -> MemoryStore {
    MemoryStore::new(SigningKey::from_bytes(vec![9u8; 32]))
}

fn client_key() -> Jwk {
    Jwk::from_secret(&[7u8; 32]).expect("a key pair")
}

fn par_proof(jti: &str, htm: &str, htu: &str, iat: i64, nonce: Option<&str>) -> String {
    sign_proof(&client_key(), htm, htu, None, nonce, jti, iat).ok().expect("a proof")
}

fn par_request() -> PARRequest {
    PARRequest {
        client_id: "client-1".to_string(),
        redirect_uri: "https://client.example/cb".to_string(),
        response_type: "code".to_string(),
        state: None,
        scope: None,
        code_challenge: Some("c".to_string()),
        code_challenge_method: Some("S256".to_string()),
        login_hint: Some("alice.example".to_string()),
    }
}

#[test]
fn par_reports_each_kind_of_rejected_proof() {
    let config =
        ProxyConfig::new("https://proxy.example", vec![1u8; 32]).unwrap();
    let mut server = OAuthProxyServer::builder()
        .config(config)
        .session_store(memory())
        .key_store(memory())
        .nonce_store(memory())
        .build()
        .ok()
        .unwrap();
    let htu = "https://proxy.example/oauth/par";
    let wrong_method = par_proof("j1", "GET", htu, NOW, None);
    assert!(matches!(
        server.handle_par_at(Some(&wrong_method), par_request(), "s", NOW),
        Err(Error::DpopMethodMismatch)
    ));
    let wrong_url = par_proof("j2", "POST", "https://proxy.example/oauth/token", NOW, None);
    assert!(matches!(
        server.handle_par_at(Some(&wrong_url), par_request(), "s", NOW),
        Err(Error::DpopUrlMismatch)
    ));
    let stale = par_proof("j3", "POST", htu, NOW - 301, None);
    assert!(matches!(
        server.handle_par_at(Some(&stale), par_request(), "s", NOW),
        Err(Error::DpopExpired)
    ));
    let early = par_proof("j4", "POST", htu, NOW + 6, None);
    assert!(matches!(
        server.handle_par_at(Some(&early), par_request(), "s", NOW),
        Err(Error::DpopExpired)
    ));
    assert!(matches!(
        server.handle_par_at(Some("garbage"), par_request(), "s", NOW),
        Err(Error::DpopInvalid)
    ));
    for error in [
        Error::DpopMethodMismatch,
        Error::DpopUrlMismatch,
        Error::DpopExpired,
        Error::DpopInvalid,
    ] {
        assert_eq!(error.status_code(), 400);
    }
}
