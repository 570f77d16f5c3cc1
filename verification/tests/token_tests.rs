use base64::Engine;
use oatproxy::auth::{
    extract_access_token, extract_bearer_token, validate_proxy_jwt, validate_proxy_jwt_at,
};
use oatproxy::crypto::SigningKey;
use oatproxy::error::Error;
use oatproxy::jws::{attach_signature, join_signing_input, sign_compact};
use oatproxy::memory::MemoryStore;
use oatproxy::session::OAuthSession;
use oatproxy::token::{check_claims, decode_token, read_claims, TokenManager};

const NOW: i64 = 1_700_000_000;
const ISSUER: &str = "https://proxy.example";

fn proxy_key() -> SigningKey {
    SigningKey::from_bytes(vec![9u8; 32])
}

fn manager() -> TokenManager {
    TokenManager::new(ISSUER.to_string())
}

fn reason(result: Result<oatproxy::token::DownstreamTokenClaims, Error>) -> String {
    match result {
        Err(Error::InvalidRequest(text)) => text,
        Err(other) => panic!("unexpected error {:?}", other),
        Ok(_) => panic!("expected a rejection"),
    }
}

fn part(token: &str, index: usize) -> serde_json::Value {
    let piece = token.split('.').nth(index).unwrap();
    let bytes = base64::engine::general_purpose::URL_SAFE_NO_PAD.decode(piece).unwrap();
    serde_json::from_slice(&bytes).unwrap()
}

fn issue(expires_in: i64) -> String {
    manager()
        .issue_downstream_jwt_at("did:plc:alice", "JKT1", "atproto", expires_in, &proxy_key(), NOW)
        .ok()
        .expect("a token")
}

#[test]
fn issued_token_has_the_documented_header_and_payload() {
    let token = issue(3600);
    let header = part(&token, 0);
    assert_eq!(header.get("alg").and_then(|v| v.as_str()), Some("ES256"));
    assert_eq!(header.get("typ").and_then(|v| v.as_str()), Some("JWT"));
    let payload = part(&token, 1);
    assert_eq!(payload.get("iss").and_then(|v| v.as_str()), Some(ISSUER));
    assert_eq!(payload.get("aud").and_then(|v| v.as_str()), Some(ISSUER));
    assert_eq!(payload.get("sub").and_then(|v| v.as_str()), Some("did:plc:alice"));
    assert_eq!(payload.get("scope").and_then(|v| v.as_str()), Some("atproto"));
    assert_eq!(payload.get("iat").and_then(|v| v.as_i64()), Some(NOW));
    assert_eq!(payload.get("exp").and_then(|v| v.as_i64()), Some(NOW + 3600));
    let cnf = payload.get("cnf").unwrap();
    assert_eq!(cnf.get("jkt").and_then(|v| v.as_str()), Some("JKT1"));
    let signature = token.split('.').nth(2).unwrap();
    assert_eq!(
        base64::engine::general_purpose::URL_SAFE_NO_PAD.decode(signature).unwrap().len(),
        64
    );
}

#[test]
fn issued_token_validates_and_is_bound_to_the_key() {
    let token = issue(3600);
    let claims = manager().validate_with_key(&token, &proxy_key(), NOW + 10).ok().unwrap();
    assert_eq!(claims.cnf.jkt, "JKT1");
    assert_eq!(claims.iss, ISSUER);
    assert_eq!(claims.aud, ISSUER);
    assert_eq!(claims.sub, "did:plc:alice");
    assert_eq!(claims.scope, "atproto");
    assert_eq!(claims.iat, NOW);
    assert_eq!(claims.exp, NOW + 3600);
}

#[test]
fn signing_is_deterministic() {
    assert_eq!(issue(3600), issue(3600));
    assert_ne!(issue(3600), issue(3601));
}

#[test]
fn expiry_saturates_instead_of_overflowing() {
    let token = manager()
        .issue_downstream_jwt_at("did:plc:a", "J", "s", i64::MAX, &proxy_key(), NOW)
        .ok()
        .unwrap();
    assert_eq!(part(&token, 1).get("exp").and_then(|v| v.as_i64()), Some(i64::MAX));
}

#[test]
fn token_expires_exactly_after_its_lifetime() {
    let token = issue(60);
    assert!(manager().validate_with_key(&token, &proxy_key(), NOW + 59).is_ok());
    assert_eq!(
        reason(manager().validate_with_key(&token, &proxy_key(), NOW + 60)),
        "token expired"
    );
    assert_eq!(
        reason(manager().validate_with_key(&token, &proxy_key(), NOW + 61)),
        "token expired"
    );
}

#[test]
fn token_of_another_issuer_is_refused() {
    let token = issue(3600);
    let other = TokenManager::new("https://other.example".to_string());
    assert_eq!(reason(other.validate_with_key(&token, &proxy_key(), NOW)), "wrong issuer");
}

#[test]
fn token_signed_by_another_key_is_refused() {
    let token = issue(3600);
    let other = SigningKey::from_bytes(vec![8u8; 32]);
    assert_eq!(
        reason(manager().validate_with_key(&token, &other, NOW)),
        "signature verification failed"
    );
}

#[test]
fn tampered_payload_is_refused() {
    let token = issue(3600);
    let parts: Vec<&str> = token.split('.').collect();
    let forged_payload = base64::engine::general_purpose::URL_SAFE_NO_PAD.encode(
        "{\"iss\":\"https://proxy.example\",\"sub\":\"did:plc:mallory\",\"aud\":\"x\",\"exp\":9999999999,\"iat\":1,\"scope\":\"atproto\",\"cnf\":{\"jkt\":\"JKT1\"}}",
    );
    let forged = format!("{}.{}.{}", parts[0], forged_payload, parts[2]);
    assert_eq!(
        reason(manager().validate_with_key(&forged, &proxy_key(), NOW)),
        "signature verification failed"
    );
}

#[test]
fn malformed_tokens_are_refused_with_their_reason() {
    let m = manager();
    let k = proxy_key();
    assert_eq!(reason(m.validate_with_key("abc", &k, NOW)), "invalid JWT format");
    assert_eq!(reason(m.validate_with_key("a.b.c.d", &k, NOW)), "invalid JWT format");
    assert_eq!(reason(m.validate_with_key("!!.e30.AA", &k, NOW)), "invalid header encoding");
    assert_eq!(reason(m.validate_with_key("AAAA.e30.AA", &k, NOW)), "invalid header JSON");
    assert_eq!(reason(m.validate_with_key("e30.e30.AA", &k, NOW)), "missing alg in header");
    let hs = base64::engine::general_purpose::URL_SAFE_NO_PAD.encode("{\"alg\":\"HS256\"}");
    assert_eq!(
        reason(m.validate_with_key(&format!("{}.e30.AA", hs), &k, NOW)),
        "unsupported algorithm: HS256"
    );
    let es = base64::engine::general_purpose::URL_SAFE_NO_PAD.encode("{\"alg\":\"ES256\"}");
    assert_eq!(
        reason(m.validate_with_key(&format!("{}.!!.AA", es), &k, NOW)),
        "invalid payload encoding"
    );
    assert_eq!(
        reason(m.validate_with_key(&format!("{}.e30.!!", es), &k, NOW)),
        "invalid signature encoding"
    );
    assert_eq!(
        reason(m.validate_with_key(&format!("{}.e30.AAAA", es), &k, NOW)),
        "invalid signature format"
    );
}

#[test]
fn incomplete_claims_are_refused() {
    let header = "{\"alg\":\"ES256\",\"typ\":\"JWT\"}";
    let payload = "{\"iss\":\"https://proxy.example\",\"sub\":\"did:plc:alice\"}";
    let token = sign_compact(header, payload, &[9u8; 32]).expect("a token");
    assert_eq!(reason(manager().validate_with_key(&token, &proxy_key(), NOW)), "invalid claims");
}

#[test]
fn decode_token_takes_the_parts_apart() {
    let token = issue(3600);
    let decoded = decode_token(&token).ok().unwrap();
    assert_eq!(decoded.signature.len(), 64);
    let parts: Vec<&str> = token.split('.').collect();
    assert_eq!(decoded.signed, format!("{}.{}", parts[0], parts[1]));
    let claims = read_claims(&decoded.payload).expect("claims");
    assert_eq!(claims.sub, "did:plc:alice");
}

#[test]
fn check_claims_orders_issuer_before_expiry() {
    let claims = read_claims(
        b"{\"iss\":\"a\",\"sub\":\"s\",\"aud\":\"a\",\"exp\":5,\"iat\":1,\"scope\":\"x\",\"cnf\":{\"jkt\":\"j\"}}",
    )
    .unwrap();
    assert_eq!(reason(check_claims(claims, "b", 10)), "wrong issuer");
    let claims = read_claims(
        b"{\"iss\":\"a\",\"sub\":\"s\",\"aud\":\"a\",\"exp\":5,\"iat\":1,\"scope\":\"x\",\"cnf\":{\"jkt\":\"j\"}}",
    )
    .unwrap();
    assert_eq!(reason(check_claims(claims, "a", 6)), "token expired");
    let claims = read_claims(
        b"{\"iss\":\"a\",\"sub\":\"s\",\"aud\":\"a\",\"exp\":5,\"iat\":1,\"scope\":\"x\",\"cnf\":{\"jkt\":\"j\"}}",
    )
    .unwrap();
    assert_eq!(reason(check_claims(claims, "a", 5)), "token expired");
    let claims = read_claims(
        b"{\"iss\":\"a\",\"sub\":\"s\",\"aud\":\"a\",\"exp\":5,\"iat\":1,\"scope\":\"x\",\"cnf\":{\"jkt\":\"j\"}}",
    )
    .unwrap();
    assert!(check_claims(claims, "a", 4).is_ok());
}

#[test]
fn signature_parts_are_joined_with_dots() {
    assert_eq!(join_signing_input("aaa", "bbb"), "aaa.bbb");
    assert_eq!(attach_signature("aaa.bbb", b"hello"), "aaa.bbb.aGVsbG8");
    assert_eq!(attach_signature("x", &[0, 1, 2, 3, 4, 5, 6, 7, 8, 9]), "x.AAECAwQFBgcICQ");
}

#[test]
fn an_invalid_key_cannot_sign() {
    assert!(sign_compact("{}", "{}", &[0u8; 32]).is_none());
    let result = manager().issue_downstream_jwt_at(
        "did:plc:a",
        "J",
        "s",
        60,
        &SigningKey::from_bytes(vec![0u8; 32]),
        NOW,
    );
    assert!(matches!(result, Err(Error::Internal(_))));
}

#[test]
fn tokens_issued_now_validate_now() {
    let store = MemoryStore::new(proxy_key());
    let token = manager()
        .issue_downstream_jwt("did:plc:alice", "JKT1", "atproto", 3600, &store)
        .ok()
        .unwrap();
    let claims = manager().validate_downstream_jwt(&token, &store).ok().unwrap();
    assert_eq!(claims.cnf.jkt, "JKT1");
    assert_eq!(claims.exp - claims.iat, 3600);
    assert!(claims.iat > 1_600_000_000);
    let expired = manager()
        .issue_downstream_jwt("did:plc:alice", "JKT1", "atproto", -10, &store)
        .ok()
        .unwrap();
    assert_eq!(reason(manager().validate_downstream_jwt(&expired, &store)), "token expired");
}

#[test]
fn session_token_is_valid_for_a_day() {
    let store = MemoryStore::new(proxy_key());
    let mut session = OAuthSession::new_at(
        "did:plc:alice".to_string(),
        "https://pds.example".to_string(),
        "client".to_string(),
        "https://client.example/cb".to_string(),
        "sid".to_string(),
        "pad".to_string(),
        NOW,
    );
    session.downstream_dpop_key_thumbprint = "JKT9".to_string();
    session.upstream_scope = "atproto".to_string();
    let token = manager().issue_downstream_access_token(&session, &store).ok().unwrap();
    let payload = part(&token, 1);
    let iat = payload.get("iat").and_then(|v| v.as_i64()).unwrap();
    let exp = payload.get("exp").and_then(|v| v.as_i64()).unwrap();
    assert_eq!(exp - iat, 86400);
    assert_eq!(payload.get("sub").and_then(|v| v.as_str()), Some("did:plc:alice"));
    assert_eq!(
        payload.get("cnf").and_then(|c| c.get("jkt")).and_then(|v| v.as_str()),
        Some("JKT9")
    );
}

#[test]
fn bearer_token_is_taken_from_the_header() {
    assert_eq!(extract_bearer_token("Bearer abc.def"), Some("abc.def"));
    assert_eq!(extract_bearer_token("bearer abc"), Some("abc"));
    assert_eq!(extract_bearer_token("BEARER abc"), None);
    assert_eq!(extract_bearer_token("DPoP abc"), None);
    assert_eq!(extract_bearer_token("Bearer"), None);
    assert_eq!(extract_bearer_token(""), None);
}

#[test]
fn access_token_is_taken_from_either_scheme() {
    assert_eq!(extract_access_token("DPoP abc"), Some("abc"));
    assert_eq!(extract_access_token("Bearer abc"), Some("abc"));
    assert_eq!(extract_access_token("bearer abc"), None);
    assert_eq!(extract_access_token("Basic abc"), None);
}

fn session_token(payload: &str) -> String {
    sign_compact("{\"alg\":\"ES256\",\"typ\":\"JWT\"}", payload, &[9u8; 32]).expect("a token")
}

fn proxy_reason(result: Result<oatproxy::auth::ProxyJwtClaims, Error>) -> String {
    match result {
        Err(Error::InvalidRequest(text)) => text,
        Err(other) => panic!("unexpected error {:?}", other),
        Ok(_) => panic!("expected a rejection"),
    }
}

#[test]
fn session_tokens_are_validated() {
    let good = session_token(
        "{\"sub\":\"did:plc:alice\",\"iss\":\"https://proxy.example\",\"aud\":\"client\",\"iat\":1700000000,\"exp\":1700003600,\"session_id\":\"sid\"}",
    );
    let claims = validate_proxy_jwt_at(&good, &proxy_key(), ISSUER, NOW).ok().unwrap();
    assert_eq!(claims.sub, "did:plc:alice");
    assert_eq!(claims.session_id, "sid");
    assert_eq!(claims.aud, "client");
    assert_eq!(claims.exp, 1700003600);
    assert_eq!(
        proxy_reason(validate_proxy_jwt_at(&good, &proxy_key(), ISSUER, 1700003601)),
        "JWT expired"
    );
    assert_eq!(
        proxy_reason(validate_proxy_jwt_at(&good, &proxy_key(), ISSUER, 1700003600)),
        "JWT expired"
    );
    assert!(validate_proxy_jwt_at(&good, &proxy_key(), ISSUER, 1700003599).is_ok());
    assert_eq!(
        proxy_reason(validate_proxy_jwt_at(&good, &proxy_key(), "https://x.example", NOW)),
        "invalid issuer: expected https://x.example, got https://proxy.example"
    );
    assert_eq!(
        proxy_reason(validate_proxy_jwt_at(
            &good,
            &SigningKey::from_bytes(vec![3u8; 32]),
            ISSUER,
            NOW
        )),
        "JWT verification failed"
    );
    assert_eq!(
        proxy_reason(validate_proxy_jwt_at("a.b", &proxy_key(), ISSUER, NOW)),
        "invalid JWT format"
    );
    assert_eq!(
        proxy_reason(validate_proxy_jwt_at("e30.e30.!!", &proxy_key(), ISSUER, NOW)),
        "invalid signature"
    );
    assert_eq!(
        proxy_reason(validate_proxy_jwt_at("e30.e30.AAAA", &proxy_key(), ISSUER, NOW)),
        "invalid signature length"
    );
    let incomplete = session_token("{\"sub\":\"did:plc:alice\"}");
    assert_eq!(
        proxy_reason(validate_proxy_jwt_at(&incomplete, &proxy_key(), ISSUER, NOW)),
        "invalid JWT claims"
    );
}

#[test]
fn session_tokens_are_validated_against_the_clock() {
    let store = MemoryStore::new(proxy_key());
    let good = session_token(
        "{\"sub\":\"did:plc:alice\",\"iss\":\"https://proxy.example\",\"aud\":\"client\",\"iat\":1,\"exp\":9999999999,\"session_id\":\"sid\"}",
    );
    assert!(validate_proxy_jwt(&good, &store, ISSUER).is_ok());
    let old = session_token(
        "{\"sub\":\"did:plc:alice\",\"iss\":\"https://proxy.example\",\"aud\":\"client\",\"iat\":1,\"exp\":2,\"session_id\":\"sid\"}",
    );
    assert_eq!(proxy_reason(validate_proxy_jwt(&old, &store, ISSUER)), "JWT expired");
}
