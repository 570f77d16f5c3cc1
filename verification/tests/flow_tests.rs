use base64::Engine;
use oatproxy::authorize::{begin_return, AuthorizeParams, CallbackParams, UpstreamAuthRequest};
use oatproxy::config::ProxyConfig;
use oatproxy::crypto::SigningKey;
use oatproxy::signing::sign_proof;
use oatproxy::error::Error;
use oatproxy::forward::{
    build_upstream_request, build_upstream_request_at, build_upstream_url, forwards_request_header,
    forwards_response_header, route_status, ForwardStep,
};
use oatproxy::grant::{
    extract_dpop_jkt, extract_dpop_jkt_and_key, token_body_format, TokenRequest, TokenResponse,
};
use oatproxy::jwk::Jwk;
use oatproxy::memory::MemoryStore;
use oatproxy::par::{check_par_request, par_body_format, BodyFormat, PARRequest, ParResponse};
use oatproxy::server::OAuthProxyServer;
use oatproxy::store::{OAuthSessionStore, TokenSet, UpstreamSession};

const NOW: i64 = 1_700_000_000;
const SUFFIX: &str = "abcdefghijklmnopqrstuvwxyzABCDEF";
const RT1: &str = "R1R1R1R1R1R1R1R1R1R1R1R1R1R1R1R1R1R1R1R1R1R1R1R1R1R1R1R1R1R1R1R1";
const RT2: &str = "R2R2R2R2R2R2R2R2R2R2R2R2R2R2R2R2R2R2R2R2R2R2R2R2R2R2R2R2R2R2R2R2";

type Server = OAuthProxyServer<MemoryStore, MemoryStore, MemoryStore>;

fn memory() -> MemoryStore {
    MemoryStore::new(SigningKey::from_bytes(vec![9u8; 32]))
}

fn server() -> Server {
    let config =
        ProxyConfig::new("https://proxy.example", vec![1u8; 32]).expect("a configuration");
    OAuthProxyServer::builder()
        .config(config)
        .session_store(memory())
        .key_store(memory())
        .nonce_store(memory())
        .build()
        .ok()
        .expect("a server")
}

fn client_key() -> Jwk {
    Jwk::from_secret(&[7u8; 32]).expect("a key pair")
}

fn other_key() -> Jwk {
    Jwk::from_secret(&[6u8; 32]).expect("a key pair")
}

fn upstream_key() -> Jwk {
    Jwk::from_secret(&[5u8; 32]).expect("a key pair")
}

fn par_proof(jti: &str, now: i64, nonce: Option<&str>) -> String {
    sign_proof(&client_key(), "POST", "https://proxy.example/oauth/par", None, nonce, jti, now)
        .ok()
        .expect("a proof")
}

fn token_proof(key: &Jwk, jti: &str) -> String {
    sign_proof(key, "POST", "https://proxy.example/oauth/token", None, None, jti, NOW)
        .ok()
        .expect("a proof")
}

fn par_request() -> PARRequest {
    PARRequest {
        client_id: "https://client.example/metadata.json".to_string(),
        redirect_uri: "https://client.example/cb".to_string(),
        response_type: "code".to_string(),
        state: Some("client-state".to_string()),
        scope: Some("atproto transition:generic bogus:scope:".to_string()),
        code_challenge: Some("challenge".to_string()),
        code_challenge_method: Some("S256".to_string()),
        login_hint: Some("alice.example".to_string()),
    }
}

fn upstream_session() -> UpstreamSession {
    UpstreamSession {
        account_did: "did:plc:alice".to_string(),
        session_id: "upstream-sid".to_string(),
        host_url: "https://pds.example/".to_string(),
        token_set: TokenSet {
            access_token: "upstream-token".to_string(),
            refresh_token: Some("upstream-refresh".to_string()),
            scope: Some("atproto transition:generic".to_string()),
            expires_at: Some(NOW + 3600),
        },
        dpop_key: upstream_key(),
    }
}

fn pushed(server: &mut Server) -> ParResponse {
    let first = par_proof("par-1", NOW, None);
    let nonce = match server.handle_par_at(Some(&first), par_request(), SUFFIX, NOW) {
        Err(Error::DpopNonceRequired(n)) => n,
        _ => panic!("expected a nonce challenge"),
    };
    let second = par_proof("par-2", NOW, Some(&nonce));
    server.handle_par_at(Some(&second), par_request(), SUFFIX, NOW).ok().expect("a request uri")
}

fn by_uri(uri: &str) -> AuthorizeParams {
    AuthorizeParams {
        client_id: None,
        redirect_uri: None,
        response_type: None,
        state: None,
        scope: None,
        request_uri: Some(uri.to_string()),
        login_hint: None,
    }
}

fn authorized(server: &mut Server) -> UpstreamAuthRequest {
    let response = pushed(server);
    server.begin_authorize_at(by_uri(&response.request_uri), "proxy-state", NOW + 1).ok().unwrap()
}

fn returned(server: &mut Server) -> String {
    let request = authorized(server);
    server
        .finish_authorize_at(request, Ok("https://pds.example/oauth/authorize?x=1".to_string()), NOW)
        .ok()
        .unwrap();
    let redirect = server
        .finish_return_at("proxy-state", Ok(upstream_session()), "DC", NOW + 2)
        .ok()
        .unwrap();
    redirect.location
}

fn code_request(code: &str) -> TokenRequest {
    TokenRequest {
        grant_type: "authorization_code".to_string(),
        code: Some(code.to_string()),
        refresh_token: None,
        client_id: None,
        redirect_uri: Some("https://client.example/cb".to_string()),
    }
}

fn refresh_request(token: &str) -> TokenRequest {
    TokenRequest {
        grant_type: "refresh_token".to_string(),
        code: None,
        refresh_token: Some(token.to_string()),
        client_id: None,
        redirect_uri: None,
    }
}

fn granted(server: &mut Server) -> TokenResponse {
    returned(server);
    let header = token_proof(&client_key(), "tok-1");
    server.handle_token_at(Some(&header), code_request("DC"), RT1, NOW + 3).ok().expect("tokens")
}

fn part(token: &str, index: usize) -> serde_json::Value {
    let piece = token.split('.').nth(index).unwrap();
    let bytes = base64::engine::general_purpose::URL_SAFE_NO_PAD.decode(piece).unwrap();
    serde_json::from_slice(&bytes).unwrap()
}

#[test]
fn par_without_proof_is_refused() {
    let mut s = server();
    assert!(matches!(
        s.handle_par_at(None, par_request(), SUFFIX, NOW),
        Err(Error::DpopProofRequired)
    ));
}

#[test]
fn par_parameters_are_checked_in_order() {
    let mut request = par_request();
    request.client_id = String::new();
    request.redirect_uri = String::new();
    match check_par_request(&request) {
        Err(Error::InvalidRequest(text)) => assert_eq!(text, "missing client_id"),
        _ => panic!("expected an invalid request"),
    }
    request.client_id = "c".to_string();
    match check_par_request(&request) {
        Err(Error::InvalidRequest(text)) => assert_eq!(text, "missing redirect_uri"),
        _ => panic!("expected an invalid request"),
    }
    request.redirect_uri = "r".to_string();
    request.code_challenge = None;
    match check_par_request(&request) {
        Err(Error::InvalidRequest(text)) => assert_eq!(text, "missing code_challenge"),
        _ => panic!("expected an invalid request"),
    }
    request.code_challenge = Some("c".to_string());
    request.code_challenge_method = Some("plain".to_string());
    match check_par_request(&request) {
        Err(Error::InvalidRequest(text)) => {
            assert_eq!(text, "only S256 code_challenge_method supported")
        }
        _ => panic!("expected an invalid request"),
    }
    request.code_challenge_method = None;
    assert!(check_par_request(&request).is_err());
    request.code_challenge_method = Some("S256".to_string());
    assert!(check_par_request(&request).is_ok());
}

#[test]
fn par_with_faulty_parameters_is_invalid_before_the_proof_is_looked_at() {
    let mut s = server();
    let mut request = par_request();
    request.code_challenge_method = Some("plain".to_string());
    match s.handle_par_at(Some("not a proof"), request, SUFFIX, NOW) {
        Err(Error::InvalidRequest(text)) => {
            assert_eq!(text, "only S256 code_challenge_method supported")
        }
        _ => panic!("expected an invalid request"),
    }
}

#[test]
fn par_nonce_dance() {
    let mut s = server();
    let first = par_proof("par-1", NOW, None);
    let challenge = s.handle_par_at(Some(&first), par_request(), SUFFIX, NOW);
    let nonce = match challenge {
        Err(Error::DpopNonceRequired(n)) => n,
        _ => panic!("expected a nonce challenge"),
    };
    let answer = Error::DpopNonceRequired(nonce.clone()).into_response();
    assert_eq!(answer.status, 400);
    assert_eq!(answer.error.as_deref(), Some("use_dpop_nonce"));
    assert_eq!(answer.dpop_nonce.as_deref(), Some(nonce.as_str()));
    let second = par_proof("par-2", NOW, Some(&nonce));
    let response = s.handle_par_at(Some(&second), par_request(), SUFFIX, NOW).ok().unwrap();
    assert_eq!(
        response.request_uri,
        "urn:ietf:params:oauth:request_uri:abcdefghijklmnopqrstuvwxyzABCDEF"
    );
    assert_eq!(response.expires_in, 90);
    assert_eq!(response.status_code(), 201);
    assert_eq!(
        response.to_json(),
        "{\"request_uri\":\"urn:ietf:params:oauth:request_uri:abcdefghijklmnopqrstuvwxyzABCDEF\",\"expires_in\":90}"
    );
}

#[test]
fn a_par_proof_succeeds_at_most_once() {
    let mut s = server();
    let first = par_proof("par-1", NOW, None);
    let nonce = match s.handle_par_at(Some(&first), par_request(), SUFFIX, NOW) {
        Err(Error::DpopNonceRequired(n)) => n,
        _ => panic!("expected a nonce challenge"),
    };
    let second = par_proof("par-2", NOW, Some(&nonce));
    assert!(s.handle_par_at(Some(&second), par_request(), SUFFIX, NOW).is_ok());
    let again = s.handle_par_at(Some(&second), par_request(), "another-suffix", NOW);
    assert!(matches!(again, Err(Error::DpopNonceReused)));
    let third = par_proof("par-3", NOW, Some(&nonce));
    assert!(s.handle_par_at(Some(&third), par_request(), "another-suffix", NOW).is_ok());
}

#[test]
fn a_request_uri_in_use_is_not_overwritten() {
    let mut s = server();
    let first = par_proof("par-1", NOW, None);
    let nonce = match s.handle_par_at(Some(&first), par_request(), SUFFIX, NOW) {
        Err(Error::DpopNonceRequired(n)) => n,
        _ => panic!("expected a nonce challenge"),
    };
    let second = par_proof("par-2", NOW, Some(&nonce));
    assert!(s.handle_par_at(Some(&second), par_request(), SUFFIX, NOW).is_ok());
    let third = par_proof("par-3", NOW, Some(&nonce));
    assert!(matches!(
        s.handle_par_at(Some(&third), par_request(), SUFFIX, NOW),
        Err(Error::StorageError(_))
    ));
}

#[test]
fn par_draws_a_request_uri_of_32_characters() {
    let mut s = server();
    let now = chrono::Utc::now().timestamp();
    let first = par_proof("par-1", now, None);
    let nonce = match s.handle_par(Some(&first), par_request()) {
        Err(Error::DpopNonceRequired(n)) => n,
        _ => panic!("expected a nonce challenge"),
    };
    let second = par_proof("par-2", now, Some(&nonce));
    let response = s.handle_par(Some(&second), par_request()).ok().unwrap();
    let suffix = response.request_uri.strip_prefix("urn:ietf:params:oauth:request_uri:").unwrap();
    assert_eq!(suffix.len(), 32);
    assert!(suffix.chars().all(|c| c.is_ascii_alphanumeric()));
}

#[test]
fn body_formats_follow_the_content_type() {
    assert_eq!(par_body_format(Some("application/json")), BodyFormat::Json);
    assert_eq!(par_body_format(Some("application/json; charset=utf-8")), BodyFormat::Json);
    assert_eq!(par_body_format(Some("application/x-www-form-urlencoded")), BodyFormat::Form);
    assert_eq!(par_body_format(None), BodyFormat::JsonThenForm);
    assert_eq!(token_body_format(Some("application/json")), BodyFormat::Json);
    assert_eq!(token_body_format(Some("text/plain")), BodyFormat::Form);
    assert_eq!(token_body_format(None), BodyFormat::Form);
}

#[test]
fn authorize_redeems_the_request_uri() {
    let mut s = server();
    let request = authorized(&mut s);
    assert_eq!(request.user_identifier, "alice.example");
    assert_eq!(request.scopes, vec!["atproto", "transition:generic"]);
    assert_eq!(request.state, "proxy-state");
    assert_eq!(request.redirect_uri, "https://client.example/cb");
    assert_eq!(request.client_state.as_deref(), Some("client-state"));
    assert_eq!(request.response_type, "code");
}

#[test]
fn a_request_uri_is_redeemed_once() {
    let mut s = server();
    let response = pushed(&mut s);
    assert!(s.begin_authorize_at(by_uri(&response.request_uri), "s1", NOW).is_ok());
    match s.begin_authorize_at(by_uri(&response.request_uri), "s2", NOW) {
        Err(Error::InvalidRequest(text)) => {
            assert_eq!(text, "invalid or expired request_uri");
            assert_eq!(Error::InvalidRequest(text).status_code(), 400);
        }
        _ => panic!("expected an invalid request"),
    }
}

#[test]
fn an_expired_request_uri_is_refused() {
    let mut s = server();
    let response = pushed(&mut s);
    match s.begin_authorize_at(by_uri(&response.request_uri), "s1", NOW + 91) {
        Err(Error::InvalidRequest(text)) => assert_eq!(text, "request_uri expired"),
        _ => panic!("expected an invalid request"),
    }
    match s.begin_authorize_at(by_uri(&response.request_uri), "s1", NOW) {
        Err(Error::InvalidRequest(text)) => assert_eq!(text, "invalid or expired request_uri"),
        _ => panic!("expected an invalid request"),
    }
}

#[test]
fn a_request_uri_is_good_until_its_ninetieth_second() {
    let mut s = server();
    let response = pushed(&mut s);
    assert!(s.begin_authorize_at(by_uri(&response.request_uri), "s1", NOW + 90).is_ok());
}

#[test]
fn authorize_without_request_uri_names_what_is_missing() {
    let mut s = server();
    let mut params = by_uri("x");
    params.request_uri = None;
    match s.begin_authorize_at(params, "s", NOW) {
        Err(Error::InvalidRequest(text)) => assert_eq!(text, "missing client_id"),
        _ => panic!("expected an invalid request"),
    }
    let direct = |redirect_uri: Option<&str>, response_type: Option<&str>| AuthorizeParams {
        client_id: Some("c".to_string()),
        redirect_uri: redirect_uri.map(String::from),
        response_type: response_type.map(String::from),
        state: None,
        scope: None,
        request_uri: None,
        login_hint: None,
    };
    match s.begin_authorize_at(direct(None, Some("code")), "s", NOW) {
        Err(Error::InvalidRequest(text)) => assert_eq!(text, "missing redirect_uri"),
        _ => panic!("expected an invalid request"),
    }
    match s.begin_authorize_at(direct(Some("r"), None), "s", NOW) {
        Err(Error::InvalidRequest(text)) => assert_eq!(text, "missing response_type"),
        _ => panic!("expected an invalid request"),
    }
    match s.begin_authorize_at(direct(Some("r"), Some("code")), "s", NOW) {
        Err(Error::InvalidRequest(text)) => assert_eq!(text, "missing login_hint"),
        _ => panic!("expected an invalid request"),
    }
}

#[test]
fn authorize_without_request_uri_starts_from_the_query() {
    let mut s = server();
    let params = AuthorizeParams {
        client_id: Some("https://client.example/metadata.json".to_string()),
        redirect_uri: Some("https://client.example/cb".to_string()),
        response_type: Some("code".to_string()),
        state: Some("client-state".to_string()),
        scope: Some("atproto nonsense:: transition:generic".to_string()),
        request_uri: None,
        login_hint: Some("alice.example".to_string()),
    };
    let request = s.begin_authorize_at(params, "proxy-state", NOW).ok().unwrap();
    assert_eq!(request.user_identifier, "alice.example");
    assert_eq!(request.scopes, vec!["atproto", "transition:generic"]);
    assert_eq!(request.state, "proxy-state");
    assert_eq!(request.redirect_uri, "https://client.example/cb");
    assert_eq!(request.client_state.as_deref(), Some("client-state"));
    assert_eq!(request.response_type, "code");
    assert_eq!(request.scope.as_deref(), Some("atproto nonsense:: transition:generic"));
}

#[test]
fn the_login_hint_of_the_query_comes_before_the_pushed_one() {
    let mut s = server();
    let response = pushed(&mut s);
    let mut params = by_uri(&response.request_uri);
    params.login_hint = Some("bob.example".to_string());
    let request = s.begin_authorize_at(params, "proxy-state", NOW + 1).ok().unwrap();
    assert_eq!(request.user_identifier, "bob.example");
    assert_eq!(request.redirect_uri, "https://client.example/cb");
    assert_eq!(request.client_state.as_deref(), Some("client-state"));
}

#[test]
fn the_login_hint_of_the_query_serves_a_pushed_request_without_one() {
    let mut s = server();
    let mut request = par_request();
    request.login_hint = None;
    let first = par_proof("par-1", NOW, None);
    let nonce = match s.handle_par_at(Some(&first), request, SUFFIX, NOW) {
        Err(Error::DpopNonceRequired(n)) => n,
        _ => panic!("expected a nonce challenge"),
    };
    let mut request = par_request();
    request.login_hint = None;
    let second = par_proof("par-2", NOW, Some(&nonce));
    let response = s.handle_par_at(Some(&second), request, SUFFIX, NOW).ok().unwrap();
    let mut params = by_uri(&response.request_uri);
    params.login_hint = Some("alice.example".to_string());
    let started = s.begin_authorize_at(params, "proxy-state", NOW + 1).ok().unwrap();
    assert_eq!(started.user_identifier, "alice.example");
}

#[test]
fn a_pushed_request_without_any_login_hint_is_refused_and_spent() {
    let mut s = server();
    let mut request = par_request();
    request.login_hint = None;
    let first = par_proof("par-1", NOW, None);
    let nonce = match s.handle_par_at(Some(&first), request, SUFFIX, NOW) {
        Err(Error::DpopNonceRequired(n)) => n,
        _ => panic!("expected a nonce challenge"),
    };
    let mut request = par_request();
    request.login_hint = None;
    let second = par_proof("par-2", NOW, Some(&nonce));
    let response = s.handle_par_at(Some(&second), request, SUFFIX, NOW).ok().unwrap();
    match s.begin_authorize_at(by_uri(&response.request_uri), "proxy-state", NOW + 1) {
        Err(Error::InvalidRequest(text)) => assert_eq!(text, "missing login_hint"),
        _ => panic!("expected an invalid request"),
    }
    match s.begin_authorize_at(by_uri(&response.request_uri), "proxy-state", NOW + 1) {
        Err(Error::InvalidRequest(text)) => assert_eq!(text, "invalid or expired request_uri"),
        _ => panic!("expected an invalid request"),
    }
}

#[test]
fn authorize_falls_back_to_the_configured_scopes() {
    let mut s = server();
    let first = par_proof("par-1", NOW, None);
    let mut request = par_request();
    request.scope = None;
    let nonce = match s.handle_par_at(Some(&first), request, SUFFIX, NOW) {
        Err(Error::DpopNonceRequired(n)) => n,
        _ => panic!("expected a nonce challenge"),
    };
    let mut request = par_request();
    request.scope = None;
    let second = par_proof("par-2", NOW, Some(&nonce));
    let response = s.handle_par_at(Some(&second), request, SUFFIX, NOW).ok().unwrap();
    let begun = s.begin_authorize_at(by_uri(&response.request_uri), "s", NOW).ok().unwrap();
    assert_eq!(begun.scopes, vec!["atproto", "transition:generic"]);
    assert_eq!(begun.scope, None);
}

#[test]
fn authorize_draws_a_state_of_32_characters() {
    let mut s = server();
    let now = chrono::Utc::now().timestamp();
    let first = par_proof("par-1", now, None);
    let nonce = match s.handle_par(Some(&first), par_request()) {
        Err(Error::DpopNonceRequired(n)) => n,
        _ => panic!("expected a nonce challenge"),
    };
    let second = par_proof("par-2", now, Some(&nonce));
    let response = s.handle_par(Some(&second), par_request()).ok().unwrap();
    let begun = s.handle_authorize(by_uri(&response.request_uri)).ok().unwrap();
    assert_eq!(begun.state.len(), 32);
    assert!(begun.state.chars().all(|c| c.is_ascii_alphanumeric()));
}

#[test]
fn a_failed_upstream_start_is_an_invalid_request() {
    let mut s = server();
    let request = authorized(&mut s);
    match s.finish_authorize_at(request, Err("no such handle".to_string()), NOW) {
        Err(Error::InvalidRequest(text)) => {
            assert_eq!(text, "failed to start auth: no such handle")
        }
        _ => panic!("expected an invalid request"),
    }
}

#[test]
fn authorize_sends_the_user_upstream() {
    let mut s = server();
    let request = authorized(&mut s);
    let redirect = s
        .finish_authorize_at(request, Ok("https://pds.example/oauth/authorize?x=1".to_string()), NOW)
        .ok()
        .unwrap();
    assert_eq!(redirect.location, "https://pds.example/oauth/authorize?x=1");
    assert_eq!(redirect.status_code(), 302);
}

#[test]
fn callback_parameters_are_checked() {
    let with_error = CallbackParams {
        code: Some("UC".to_string()),
        state: Some("s".to_string()),
        iss: None,
        error: Some("access_denied".to_string()),
    };
    match begin_return(with_error) {
        Err(Error::InvalidRequest(text)) => assert_eq!(text, "upstream auth failed: access_denied"),
        _ => panic!("expected an invalid request"),
    }
    let no_code = CallbackParams { code: None, state: Some("s".to_string()), iss: None, error: None };
    assert!(matches!(begin_return(no_code), Err(Error::InvalidGrant)));
    let no_state =
        CallbackParams { code: Some("UC".to_string()), state: None, iss: None, error: None };
    match begin_return(no_state) {
        Err(Error::InvalidRequest(text)) => assert_eq!(text, "missing state"),
        _ => panic!("expected an invalid request"),
    }
    let good = CallbackParams {
        code: Some("UC".to_string()),
        state: Some("s".to_string()),
        iss: Some("https://pds.example".to_string()),
        error: None,
    };
    let callback = begin_return(good).ok().unwrap();
    assert_eq!(callback.code, "UC");
    assert_eq!(callback.state, "s");
    assert_eq!(callback.iss.as_deref(), Some("https://pds.example"));
}

#[test]
fn return_hands_the_client_its_code_in_the_fragment() {
    let mut s = server();
    let location = returned(&mut s);
    assert_eq!(
        location,
        "https://client.example/cb#code=DC&state=client-state&iss=https%3A%2F%2Fproxy.example"
    );
    let key = s.session_store.get_session_dpop_key("upstream-sid").ok().unwrap().unwrap();
    assert_eq!(key.0, upstream_key().thumbprint().ok().unwrap());
    assert!(s.session_store.get_oauth_session("did:plc:alice", "upstream-sid").ok().unwrap().is_some());
}

#[test]
fn return_for_an_unknown_state_is_refused() {
    let mut s = server();
    match s.finish_return_at("nobody", Ok(upstream_session()), "DC", NOW) {
        Err(Error::InvalidRequest(text)) => assert_eq!(text, "session not found"),
        _ => panic!("expected an invalid request"),
    }
    match s.finish_return_at("nobody", Err("bad code".to_string()), "DC", NOW) {
        Err(Error::InvalidRequest(text)) => assert_eq!(text, "failed to exchange code: bad code"),
        _ => panic!("expected an invalid request"),
    }
}

#[test]
fn return_draws_a_code_of_32_characters() {
    let mut s = server();
    let request = authorized(&mut s);
    s.finish_authorize_at(request, Ok("https://pds.example/a".to_string()), NOW).ok().unwrap();
    let redirect = s.handle_return("proxy-state", Ok(upstream_session())).ok().unwrap();
    let fragment = redirect.location.split('#').nth(1).unwrap();
    let code = fragment.strip_prefix("code=").unwrap().split('&').next().unwrap();
    assert_eq!(code.len(), 32);
    assert!(code.chars().all(|c| c.is_ascii_alphanumeric()));
}

#[test]
fn token_exchange_issues_a_bound_token() {
    let mut s = server();
    let response = granted(&mut s);
    assert_eq!(response.status_code(), 200);
    assert_eq!(response.token_type, "DPoP");
    assert_eq!(response.expires_in, 3600);
    assert_eq!(response.refresh_token.as_deref(), Some(RT1));
    assert_eq!(response.refresh_token.as_ref().map(|t| t.len()), Some(64));
    assert_eq!(response.sub, "did:plc:alice");
    assert_eq!(response.scope, "atproto transition:generic");
    let payload = part(&response.access_token, 1);
    let jkt = client_key().thumbprint().ok().unwrap();
    assert_eq!(
        payload.get("cnf").and_then(|c| c.get("jkt")).and_then(|v| v.as_str()),
        Some(jkt.as_str())
    );
    assert_eq!(payload.get("iss").and_then(|v| v.as_str()), Some("https://proxy.example"));
    assert_eq!(payload.get("sub").and_then(|v| v.as_str()), Some("did:plc:alice"));
    assert!(!response.access_token.contains("upstream-token"));
    assert!(!response.to_json().contains("upstream"));
    assert_eq!(s.session_store.get_active_session("did:plc:alice").ok().unwrap().as_deref(), Some("upstream-sid"));
}

#[test]
fn token_response_is_written_as_json() {
    let response = TokenResponse {
        access_token: "a.b.c".to_string(),
        token_type: "DPoP".to_string(),
        expires_in: 3600,
        refresh_token: Some("RT".to_string()),
        scope: "atproto".to_string(),
        sub: "did:plc:alice".to_string(),
    };
    assert_eq!(
        response.to_json(),
        "{\"access_token\":\"a.b.c\",\"token_type\":\"DPoP\",\"expires_in\":3600,\"refresh_token\":\"RT\",\"scope\":\"atproto\",\"sub\":\"did:plc:alice\"}"
    );
}

#[test]
fn an_authorization_code_is_redeemed_once() {
    let mut s = server();
    granted(&mut s);
    let header = token_proof(&client_key(), "tok-2");
    let again = s.handle_token_at(Some(&header), code_request("DC"), RT2, NOW + 4);
    assert!(matches!(again, Err(Error::InvalidGrant)));
    assert_eq!(Error::InvalidGrant.into_response().error.as_deref(), Some("invalid_grant"));
}

#[test]
fn token_requests_are_checked() {
    let mut s = server();
    returned(&mut s);
    let header = token_proof(&client_key(), "tok-1");
    let mut no_code = code_request("DC");
    no_code.code = None;
    match s.handle_token_at(Some(&header), no_code, RT1, NOW) {
        Err(Error::InvalidRequest(text)) => assert_eq!(text, "missing code"),
        _ => panic!("expected an invalid request"),
    }
    assert!(matches!(
        s.handle_token_at(None, code_request("DC"), RT1, NOW),
        Err(Error::DpopProofRequired)
    ));
    assert!(matches!(
        s.handle_token_at(Some(&header), code_request("unknown"), RT1, NOW),
        Err(Error::InvalidGrant)
    ));
    let mut other = code_request("DC");
    other.grant_type = "password".to_string();
    assert!(matches!(s.handle_token_at(Some(&header), other, RT1, NOW), Err(Error::InvalidGrant)));
    let mut no_refresh = refresh_request("x");
    no_refresh.refresh_token = None;
    match s.handle_token_at(Some(&header), no_refresh, RT1, NOW) {
        Err(Error::InvalidRequest(text)) => assert_eq!(text, "missing refresh_token"),
        _ => panic!("expected an invalid request"),
    }
    assert!(matches!(
        s.handle_token_at(Some(&header), refresh_request("unknown"), RT1, NOW),
        Err(Error::InvalidGrant)
    ));
    assert!(s.handle_token_at(Some(&header), code_request("DC"), RT1, NOW).is_ok());
}

#[test]
fn the_dpop_header_is_asked_for_before_the_grant_type_is_looked_at() {
    let mut s = server();
    returned(&mut s);
    let mut no_code = code_request("DC");
    no_code.code = None;
    assert!(matches!(s.handle_token_at(None, no_code, RT1, NOW), Err(Error::DpopProofRequired)));
    let mut no_refresh = refresh_request("x");
    no_refresh.refresh_token = None;
    assert!(matches!(
        s.handle_token_at(None, no_refresh, RT1, NOW),
        Err(Error::DpopProofRequired)
    ));
    let mut other = code_request("DC");
    other.grant_type = "password".to_string();
    assert!(matches!(s.handle_token_at(None, other, RT1, NOW), Err(Error::DpopProofRequired)));
    let mut other = code_request("DC");
    other.grant_type = "password".to_string();
    match s.handle_token_at(Some("not-a-proof"), other, RT1, NOW) {
        Err(Error::InvalidRequest(text)) => assert_eq!(text, "invalid DPoP proof format"),
        _ => panic!("expected an invalid request"),
    }
    let mut no_code = code_request("DC");
    no_code.code = None;
    match s.handle_token_at(Some("not-a-proof"), no_code, RT1, NOW) {
        Err(Error::InvalidRequest(text)) => assert_eq!(text, "invalid DPoP proof format"),
        _ => panic!("expected an invalid request"),
    }
    let header = token_proof(&client_key(), "tok-1");
    assert!(s.handle_token_at(Some(&header), code_request("DC"), RT1, NOW).is_ok());
}

#[test]
fn a_code_without_an_upstream_session_finds_no_session() {
    let mut s = server();
    returned(&mut s);
    s.session_store.delete_oauth_session("did:plc:alice", "upstream-sid").ok().unwrap();
    let header = token_proof(&client_key(), "tok-1");
    assert!(matches!(
        s.handle_token_at(Some(&header), code_request("DC"), RT1, NOW),
        Err(Error::SessionNotFound)
    ));
}

#[test]
fn refresh_rotates_the_refresh_token() {
    let mut s = server();
    let first = granted(&mut s);
    let header = token_proof(&other_key(), "tok-2");
    let second = s.handle_token_at(Some(&header), refresh_request(RT1), RT2, NOW + 100).ok().unwrap();
    assert_eq!(second.refresh_token.as_deref(), Some(RT2));
    assert_ne!(second.refresh_token, first.refresh_token);
    assert_ne!(second.access_token, first.access_token);
    assert_eq!(second.sub, "did:plc:alice");
    let payload = part(&second.access_token, 1);
    let jkt = other_key().thumbprint().ok().unwrap();
    assert_eq!(
        payload.get("cnf").and_then(|c| c.get("jkt")).and_then(|v| v.as_str()),
        Some(jkt.as_str())
    );
    let old = s.handle_token_at(Some(&header), refresh_request(RT1), "R3", NOW + 101);
    assert!(matches!(old, Err(Error::InvalidGrant)));
    assert!(s.handle_token_at(Some(&header), refresh_request(RT2), "R3", NOW + 102).is_ok());
}

#[test]
fn tokens_are_drawn_with_64_characters() {
    let mut s = server();
    returned(&mut s);
    let header = token_proof(&client_key(), "tok-1");
    let response = s.handle_token(Some(&header), code_request("DC")).ok().unwrap();
    let refresh = response.refresh_token.unwrap();
    assert_eq!(refresh.len(), 64);
    assert!(refresh.chars().all(|c| c.is_ascii_alphanumeric()));
    let payload = part(&response.access_token, 1);
    let iat = payload.get("iat").and_then(|v| v.as_i64()).unwrap();
    let exp = payload.get("exp").and_then(|v| v.as_i64()).unwrap();
    assert_eq!(exp - iat, 3600);
}

#[test]
fn dpop_header_yields_key_and_thumbprint() {
    let header = token_proof(&client_key(), "k-1");
    let (jkt, key) = extract_dpop_jkt_and_key(Some(&header)).ok().unwrap();
    assert_eq!(jkt, client_key().thumbprint().ok().unwrap());
    assert!(!key.has_private());
    assert_eq!(extract_dpop_jkt(Some(&header)).ok(), Some(jkt));
    assert!(matches!(extract_dpop_jkt(None), Err(Error::DpopProofRequired)));
    match extract_dpop_jkt(Some("abc")) {
        Err(Error::InvalidRequest(text)) => assert_eq!(text, "invalid DPoP proof format"),
        _ => panic!("expected an invalid request"),
    }
    match extract_dpop_jkt(Some("!!.b.c")) {
        Err(Error::InvalidRequest(text)) => assert_eq!(text, "invalid DPoP header encoding"),
        _ => panic!("expected an invalid request"),
    }
    match extract_dpop_jkt(Some("AAAA.b.c")) {
        Err(Error::InvalidRequest(text)) => assert_eq!(text, "invalid DPoP header JSON"),
        _ => panic!("expected an invalid request"),
    }
    match extract_dpop_jkt(Some("e30.b.c")) {
        Err(Error::InvalidRequest(text)) => assert_eq!(text, "DPoP proof missing jwk in header"),
        _ => panic!("expected an invalid request"),
    }
    let bad = base64::engine::general_purpose::URL_SAFE_NO_PAD.encode("{\"jwk\":{\"kty\":\"EC\"}}");
    match extract_dpop_jkt(Some(&format!("{}.b.c", bad))) {
        Err(Error::InvalidRequest(text)) => assert_eq!(text, "invalid JWK"),
        _ => panic!("expected an invalid request"),
    }
}

#[test]
fn revoke_deletes_the_session_of_the_key() {
    let mut s = server();
    granted(&mut s);
    let header = token_proof(&client_key(), "rev-1");
    assert!(matches!(s.handle_revoke(None), Err(Error::DpopProofRequired)));
    let stranger = token_proof(&other_key(), "rev-2");
    assert!(matches!(s.handle_revoke(Some(&stranger)), Err(Error::SessionNotFound)));
    assert!(s.handle_revoke(Some(&header)).is_ok());
    assert_eq!(oatproxy::grant::REVOKED_STATUS, 204);
    assert!(s.session_store.get_oauth_session("did:plc:alice", "upstream-sid").ok().unwrap().is_none());
    assert!(s.session_store.get_session_dpop_key("upstream-sid").ok().unwrap().is_none());
    assert!(matches!(s.handle_revoke(Some(&header)), Err(Error::SessionNotFound)));
}

#[test]
fn forwarding_authenticates_and_finds_the_session() {
    let mut s = server();
    let tokens = granted(&mut s);
    let header = token_proof(&client_key(), "x-1");
    let authorization = format!("DPoP {}", tokens.access_token);
    let state = s
        .begin_forward_at(
            Some(&authorization),
            Some(&header),
            "GET",
            "/xrpc/app.foo.getThing?a=1",
            NOW + 10,
        )
        .ok()
        .unwrap();
    assert_eq!(state.session_id, "upstream-sid");
    assert_eq!(state.upstream_url, "https://pds.example/xrpc/app.foo.getThing?a=1");
    assert_eq!(state.method, "GET");
    assert_eq!(state.access_token, "upstream-token");
    assert_eq!(state.nonce, None);
    assert_eq!(state.retries_left, 1);
    let bearer = format!("Bearer {}", tokens.access_token);
    assert!(s.begin_forward_at(Some(&bearer), Some(&header), "GET", "/xrpc/a", NOW + 10).is_ok());
}

#[test]
fn forwarding_refuses_bad_credentials() {
    let mut s = server();
    let tokens = granted(&mut s);
    let header = token_proof(&client_key(), "x-1");
    let authorization = format!("DPoP {}", tokens.access_token);
    assert!(matches!(
        s.begin_forward_at(None, Some(&header), "GET", "/xrpc/a", NOW),
        Err(Error::Unauthorized)
    ));
    assert!(matches!(
        s.begin_forward_at(Some("Basic abc"), Some(&header), "GET", "/xrpc/a", NOW),
        Err(Error::Unauthorized)
    ));
    assert!(matches!(
        s.begin_forward_at(Some("DPoP not.a.token"), Some(&header), "GET", "/xrpc/a", NOW),
        Err(Error::Unauthorized)
    ));
    assert!(matches!(
        s.begin_forward_at(Some(&authorization), Some(&header), "GET", "/xrpc/a", NOW + 4000),
        Err(Error::Unauthorized)
    ));
    assert!(matches!(
        s.begin_forward_at(Some(&authorization), None, "GET", "/xrpc/a", NOW),
        Err(Error::DpopProofRequired)
    ));
    assert!(matches!(
        s.begin_forward_at(Some(&authorization), Some("garbage"), "GET", "/xrpc/a", NOW),
        Err(Error::Unauthorized)
    ));
    assert_eq!(Error::Unauthorized.status_code(), 401);
}

#[test]
fn forwarding_refuses_another_key() {
    let mut s = server();
    let tokens = granted(&mut s);
    let authorization = format!("DPoP {}", tokens.access_token);
    let header = token_proof(&other_key(), "x-2");
    match s.begin_forward_at(Some(&authorization), Some(&header), "GET", "/xrpc/a", NOW) {
        Err(Error::InvalidRequest(text)) => {
            assert_eq!(text, "DPoP key mismatch");
            assert_eq!(Error::InvalidRequest(text).status_code(), 400);
        }
        _ => panic!("expected an invalid request"),
    }
}

#[test]
fn forwarding_needs_an_active_session() {
    let mut s = server();
    let tokens = granted(&mut s);
    let header = token_proof(&client_key(), "x-1");
    let authorization = format!("DPoP {}", tokens.access_token);
    assert!(s.handle_revoke(Some(&header)).is_ok());
    assert!(matches!(
        s.begin_forward_at(Some(&authorization), Some(&header), "GET", "/xrpc/a", NOW),
        Err(Error::SessionNotFound)
    ));
}

#[test]
fn forwarding_retries_once_with_the_nonce_of_the_challenge() {
    let mut s = server();
    let tokens = granted(&mut s);
    let header = token_proof(&client_key(), "x-1");
    let authorization = format!("DPoP {}", tokens.access_token);
    s.session_store.update_session_dpop_nonce("upstream-sid", "stale".to_string()).ok().unwrap();
    let state = s
        .begin_forward_at(Some(&authorization), Some(&header), "GET", "/xrpc/app.foo.getThing?a=1", NOW)
        .ok()
        .unwrap();
    assert_eq!(state.nonce.as_deref(), Some("stale"));
    let request = build_upstream_request_at(&state, "jti-a", NOW).ok().unwrap();
    assert_eq!(request.method, "GET");
    assert_eq!(request.url, "https://pds.example/xrpc/app.foo.getThing?a=1");
    assert_eq!(request.authorization, "DPoP upstream-token");
    let payload = part(&request.dpop, 1);
    assert_eq!(payload.get("nonce").and_then(|v| v.as_str()), Some("stale"));
    assert_eq!(payload.get("htm").and_then(|v| v.as_str()), Some("GET"));
    assert_eq!(
        payload.get("htu").and_then(|v| v.as_str()),
        Some("https://pds.example/xrpc/app.foo.getThing?a=1")
    );
    assert_eq!(
        payload.get("ath").and_then(|v| v.as_str()),
        Some("VVs-F9zn7J2FboQukg992P3fYjHJyHnOxy0eGr9peYE")
    );
    let next = match s.handle_upstream_response(state, 401, Some("NU2")).ok().unwrap() {
        ForwardStep::Retry(next) => next,
        ForwardStep::Done => panic!("expected a retry"),
    };
    assert_eq!(next.nonce.as_deref(), Some("NU2"));
    assert_eq!(next.retries_left, 0);
    assert_eq!(
        s.session_store.get_session_dpop_nonce("upstream-sid").ok().unwrap().as_deref(),
        Some("NU2")
    );
    let retry = build_upstream_request_at(&next, "jti-b", NOW).ok().unwrap();
    assert_eq!(part(&retry.dpop, 1).get("nonce").and_then(|v| v.as_str()), Some("NU2"));
    assert!(matches!(s.handle_upstream_response(next, 200, None).ok().unwrap(), ForwardStep::Done));
    let later = s
        .begin_forward_at(Some(&authorization), Some(&header), "GET", "/xrpc/a", NOW)
        .ok()
        .unwrap();
    assert_eq!(later.nonce.as_deref(), Some("NU2"));
}

#[test]
fn forwarding_gives_up_after_one_retry() {
    let mut s = server();
    let tokens = granted(&mut s);
    let header = token_proof(&client_key(), "x-1");
    let authorization = format!("DPoP {}", tokens.access_token);
    let state = s
        .begin_forward_at(Some(&authorization), Some(&header), "POST", "xrpc/a", NOW)
        .ok()
        .unwrap();
    let next = match s.handle_upstream_response(state, 400, Some("N1")).ok().unwrap() {
        ForwardStep::Retry(next) => next,
        ForwardStep::Done => panic!("expected a retry"),
    };
    assert!(matches!(
        s.handle_upstream_response(next, 401, Some("N2")).ok().unwrap(),
        ForwardStep::Done
    ));
    assert_eq!(
        s.session_store.get_session_dpop_nonce("upstream-sid").ok().unwrap().as_deref(),
        Some("N2")
    );
}

#[test]
fn a_nonce_on_a_success_is_stored_without_retry() {
    let mut s = server();
    let tokens = granted(&mut s);
    let header = token_proof(&client_key(), "x-1");
    let authorization = format!("DPoP {}", tokens.access_token);
    let state = s
        .begin_forward_at(Some(&authorization), Some(&header), "GET", "/xrpc/a", NOW)
        .ok()
        .unwrap();
    assert!(matches!(
        s.handle_upstream_response(state, 200, Some("N9")).ok().unwrap(),
        ForwardStep::Done
    ));
    assert_eq!(
        s.session_store.get_session_dpop_nonce("upstream-sid").ok().unwrap().as_deref(),
        Some("N9")
    );
    let state = s
        .begin_forward_at(Some(&authorization), Some(&header), "GET", "/xrpc/a", NOW)
        .ok()
        .unwrap();
    assert!(matches!(
        s.handle_upstream_response(state, 401, None).ok().unwrap(),
        ForwardStep::Done
    ));
}

#[test]
fn upstream_requests_are_built_against_the_clock() {
    let mut s = server();
    let tokens = granted(&mut s);
    let header = token_proof(&client_key(), "x-1");
    let authorization = format!("DPoP {}", tokens.access_token);
    let found = s.handle_xrpc_proxy(Some(&authorization), Some(&header), "GET", "/xrpc/a");
    assert!(matches!(found, Err(Error::Unauthorized)));
    let state = s
        .begin_forward_at(Some(&authorization), Some(&header), "GET", "/xrpc/a", NOW)
        .ok()
        .unwrap();
    let request = build_upstream_request(&state).ok().unwrap();
    let payload = part(&request.dpop, 1);
    assert_eq!(payload.get("jti").and_then(|v| v.as_str()).map(|j| j.len()), Some(32));
    assert!(payload.get("iat").and_then(|v| v.as_i64()).unwrap() > 1_600_000_000);
}

#[test]
fn upstream_url_joins_host_and_path() {
    assert_eq!(build_upstream_url("https://pds.example/", "/xrpc/a?b=1"), "https://pds.example/xrpc/a?b=1");
    assert_eq!(build_upstream_url("https://pds.example", "xrpc/a"), "https://pds.example/xrpc/a");
    assert_eq!(build_upstream_url("https://pds.example//", "//xrpc/a"), "https://pds.example/xrpc/a");
    assert_eq!(build_upstream_url("https://pds.example", ""), "https://pds.example/");
}

#[test]
fn header_filters_name_the_hop_headers() {
    assert!(!forwards_request_header("host"));
    assert!(!forwards_request_header("authorization"));
    assert!(!forwards_request_header("dpop"));
    assert!(forwards_request_header("content-type"));
    assert!(forwards_request_header("atproto-proxy"));
    assert!(!forwards_response_header("transfer-encoding"));
    assert!(forwards_response_header("dpop-nonce"));
    assert!(forwards_response_header("content-type"));
}

#[test]
fn route_failures_have_their_statuses() {
    assert_eq!(route_status(&Error::NetworkError("x".to_string())), 502);
    assert_eq!(route_status(&Error::StorageError("x".to_string())), 500);
    assert_eq!(route_status(&Error::Unauthorized), 401);
    assert_eq!(route_status(&Error::SessionNotFound), 401);
    assert_eq!(route_status(&Error::InvalidRequest("DPoP key mismatch".to_string())), 400);
}

#[test]
fn builder_names_the_first_missing_part() {
    let built: Result<Server, Error> = OAuthProxyServer::builder().build();
    match built {
        Err(Error::InvalidRequest(text)) => assert_eq!(text, "config required"),
        _ => panic!("expected an invalid request"),
    }
    let config = ProxyConfig::new("https://proxy.example", vec![7u8; 32]).unwrap();
    let built: Result<Server, Error> = OAuthProxyServer::builder().config(config).build();
    match built {
        Err(Error::InvalidRequest(text)) => assert_eq!(text, "session_store required"),
        _ => panic!("expected an invalid request"),
    }
    let config = ProxyConfig::new("https://proxy.example", vec![7u8; 32]).unwrap();
    let built: Result<Server, Error> =
        OAuthProxyServer::builder().config(config).session_store(memory()).build();
    match built {
        Err(Error::InvalidRequest(text)) => assert_eq!(text, "key_store required"),
        _ => panic!("expected an invalid request"),
    }
    let config = ProxyConfig::new("https://proxy.example", vec![7u8; 32]).unwrap();
    let built: Result<Server, Error> = OAuthProxyServer::builder()
        .config(config)
        .session_store(memory())
        .key_store(memory())
        .build();
    match built {
        Err(Error::InvalidRequest(text)) => assert_eq!(text, "nonce_store required"),
        _ => panic!("expected an invalid request"),
    }
    assert_eq!(server().token_manager.issuer_text(), "https://proxy.example");
}

#[test]
fn an_account_that_is_no_did_gets_no_tokens() {
    let mut s = server();
    let request = authorized(&mut s);
    s.finish_authorize_at(request, Ok("https://pds.example/a".to_string()), NOW).ok().unwrap();
    let mut session = upstream_session();
    session.account_did = "alice".to_string();
    s.finish_return_at("proxy-state", Ok(session), "DC", NOW).ok().unwrap();
    let header = token_proof(&client_key(), "tok-1");
    match s.handle_token_at(Some(&header), code_request("DC"), RT1, NOW) {
        Err(Error::InvalidRequest(text)) => assert_eq!(text, "invalid DID"),
        _ => panic!("expected an invalid request"),
    }
}

#[test]
fn forwarding_wants_the_account_to_be_a_did() {
    let mut s = server();
    granted(&mut s);
    let jkt = client_key().thumbprint().ok().unwrap();
    let key = SigningKey::from_bytes(vec![9u8; 32]);
    let token = s
        .token_manager
        .issue_downstream_jwt_at("alice", &jkt, "atproto", 3600, &key, NOW)
        .ok()
        .unwrap();
    s.session_store.store_active_session("alice", "upstream-sid".to_string()).ok().unwrap();
    let header = token_proof(&client_key(), "x-1");
    let authorization = format!("DPoP {}", token);
    match s.begin_forward_at(Some(&authorization), Some(&header), "GET", "/xrpc/a", NOW) {
        Err(Error::InvalidRequest(text)) => assert_eq!(text, "invalid DID"),
        _ => panic!("expected an invalid request"),
    }
}

#[test]
fn the_fragment_is_percent_encoded_but_for_unreserved_characters() {
    let location = oatproxy::authorize::build_redirect_location(
        "https://client.example/cb",
        "Az09-_.~",
        &Some("a b/c?d=e&f#g+h%i\u{e9}".to_string()),
        "https://proxy.example:8443/base",
    );
    assert_eq!(
        location,
        "https://client.example/cb#code=Az09-_.~&state=a%20b%2Fc%3Fd%3De%26f%23g%2Bh%25i%C3%A9&iss=https%3A%2F%2Fproxy.example%3A8443%2Fbase"
    );
    let location =
        oatproxy::authorize::build_redirect_location("https://client.example/cb", "", &None, "");
    assert_eq!(location, "https://client.example/cb#code=&state=&iss=");
}

#[test]
fn par_stores_the_request_for_ninety_seconds_and_the_client_info_for_ten_minutes() {
    let mut s = server();
    let response = pushed(&mut s);
    let jkt = client_key().thumbprint().ok().unwrap();
    let info = s.session_store.consume_downstream_client_info(&jkt).ok().unwrap().unwrap();
    assert_eq!(info.expires_at, NOW + 600);
    assert_eq!(info.redirect_uri, "https://client.example/cb");
    assert_eq!(info.state.as_deref(), Some("client-state"));
    assert_eq!(info.response_type, "code");
    let data = s.session_store.consume_par_data(&response.request_uri).ok().unwrap().unwrap();
    assert_eq!(data.expires_at, NOW + 90);
    assert_eq!(data.downstream_dpop_jkt, jkt);
    assert_eq!(data.login_hint.as_deref(), Some("alice.example"));
}

#[test]
fn a_challenge_can_be_answered_until_its_nonce_is_300_seconds_old() {
    for delay in [0i64, 1, 299, 300] {
        let mut s = server();
        let first = par_proof("par-1", NOW, None);
        let nonce = match s.handle_par_at(Some(&first), par_request(), SUFFIX, NOW) {
            Err(Error::DpopNonceRequired(n)) => n,
            _ => panic!("expected a nonce challenge"),
        };
        let second = par_proof("par-2", NOW + delay, Some(&nonce));
        let response = s.handle_par_at(Some(&second), par_request(), SUFFIX, NOW + delay);
        assert_eq!(response.ok().map(|r| r.expires_in), Some(90), "after {delay} seconds");
    }
    let mut s = server();
    let first = par_proof("par-1", NOW, None);
    let nonce = match s.handle_par_at(Some(&first), par_request(), SUFFIX, NOW) {
        Err(Error::DpopNonceRequired(n)) => n,
        _ => panic!("expected a nonce challenge"),
    };
    let late = par_proof("par-2", NOW + 301, Some(&nonce));
    match s.handle_par_at(Some(&late), par_request(), SUFFIX, NOW + 301) {
        Err(Error::DpopNonceRequired(again)) => assert_ne!(again, nonce),
        _ => panic!("expected another nonce challenge"),
    }
}

#[test]
fn an_account_is_a_did_by_its_syntax() {
    let long = |n: usize| format!("did:plc:{}", "a".repeat(n));
    let cases: Vec<(String, bool)> = vec![
        ("did:plc:alice".to_string(), true),
        ("did:a:b".to_string(), true),
        ("did:web:example.com:user".to_string(), true),
        ("did:web:example.com%3A8080".to_string(), true),
        ("did:plc:a.b_c-d".to_string(), true),
        ("at://did:plc:alice".to_string(), true),
        (long(2040), true),
        (long(2041), false),
        (format!("at://{}", long(2040)), true),
        ("at://at://did:plc:alice".to_string(), false),
        ("alice".to_string(), false),
        ("".to_string(), false),
        ("did:".to_string(), false),
        ("did:plc".to_string(), false),
        ("did:plc:".to_string(), false),
        ("did::alice".to_string(), false),
        ("did:PLC:alice".to_string(), false),
        ("did:pl1c:alice".to_string(), false),
        ("DID:plc:alice".to_string(), false),
        ("did:plc:alice:".to_string(), false),
        ("did:plc:alice%".to_string(), false),
        ("did:plc:al ice".to_string(), false),
        ("did:plc:alice\n".to_string(), false),
        ("did:plc:al\u{e9}ce".to_string(), false),
        (" did:plc:alice".to_string(), false),
        ("did:plc:a/b".to_string(), false),
    ];
    let key = SigningKey::from_bytes(vec![9u8; 32]);
    let jkt = client_key().thumbprint().ok().unwrap();
    let header = token_proof(&client_key(), "x-1");
    for (account, valid) in cases {
        let outside =
            jacquard_common::types::did::Did::<jacquard_common::DefaultStr>::new_owned(&account);
        assert_eq!(outside.is_ok(), valid, "{account:?}");
        let mut s = server();
        let token = s
            .token_manager
            .issue_downstream_jwt_at(&account, &jkt, "atproto", 3600, &key, NOW)
            .ok()
            .unwrap();
        s.session_store.store_active_session(&account, "upstream-sid".to_string()).ok().unwrap();
        let authorization = format!("DPoP {}", token);
        match s.begin_forward_at(Some(&authorization), Some(&header), "GET", "/xrpc/a", NOW) {
            Err(Error::SessionNotFound) => assert!(valid, "{account:?}"),
            Err(Error::InvalidRequest(text)) => {
                assert_eq!(text, "invalid DID");
                assert!(!valid, "{account:?}");
            }
            _ => panic!("{account:?}"),
        }
    }
}

#[test]
fn the_fragment_is_encoded_as_the_urlencoding_crate_encodes() {
    let mut samples: Vec<String> = (0u8..128).map(|b| (b as char).to_string()).collect();
    samples.push("\u{e9}\u{20ac}\u{1f600}".to_string());
    samples.push("a b&c=d/e?f#g".to_string());
    samples.push((0u8..128).map(|b| b as char).collect());
    for sample in samples {
        let location = oatproxy::authorize::build_redirect_location(
            "https://client.example/cb",
            &sample,
            &Some(sample.clone()),
            &sample,
        );
        let encoded = urlencoding::encode(&sample).into_owned();
        assert_eq!(
            location,
            format!("https://client.example/cb#code={encoded}&state={encoded}&iss={encoded}"),
            "{sample:?}"
        );
    }
}
