use base64::Engine;
use sha2::Digest;
use oatproxy::dpop::{check_ath, check_freshness, parse_proof, verify, verify_at, DpopError, NonceMode, VerifyOptions};
use oatproxy::nonce::{check_nonce, read_timestamp, HmacConfig};
use oatproxy::signing::sign_proof;
use oatproxy::error::Error;
use oatproxy::jwk::Jwk;
use oatproxy::memory::MemoryStore;
use oatproxy::crypto::SigningKey;
use oatproxy::store::NonceStore;

const NOW: i64 = 1_700_000_000;
const HTU: &str = "https://proxy.example/oauth/par";

fn client_key() -> Jwk {
    Jwk::from_secret(&[7u8; 32]).expect("a key pair")
}

fn store() -> MemoryStore {
    MemoryStore::new(SigningKey::from_bytes(vec![9u8; 32]))
}

fn hmac() -> HmacConfig {
    HmacConfig {
        secret: vec![1u8; 32],
        max_age_seconds: 300,
        bind_htu_htm: true,
        bind_jkt: true,
        bind_client: true,
    }
}

fn with_nonce() -> VerifyOptions {
    VerifyOptions { nonce_mode: NonceMode::Hmac(hmac()), client_id: Some("client-1".to_string()) }
}

fn without_nonce() -> VerifyOptions {
    VerifyOptions { nonce_mode: NonceMode::Disabled, client_id: None }
}

fn client_proof(jti: &str, iat: i64, nonce: Option<&str>) -> String {
    sign_proof(&client_key(), "POST", HTU, None, nonce, jti, iat).ok().expect("a proof")
}

fn part(token: &str, index: usize) -> serde_json::Value {
    let piece = token.split('.').nth(index).unwrap();
    let bytes = base64::engine::general_purpose::URL_SAFE_NO_PAD.decode(piece).unwrap();
    serde_json::from_slice(&bytes).unwrap()
}

#[test]
fn signed_proof_has_the_documented_header_and_payload() {
    let text = sign_proof(
        &client_key(),
        "GET",
        "https://pds.example/xrpc/a",
        Some("upstream-token"),
        Some("NU2"),
        "jti-1",
        NOW,
    )
    .ok()
    .unwrap();
    let header = part(&text, 0);
    assert_eq!(header.get("alg").and_then(|v| v.as_str()), Some("ES256"));
    assert_eq!(header.get("typ").and_then(|v| v.as_str()), Some("dpop+jwt"));
    let jwk = header.get("jwk").unwrap();
    assert_eq!(jwk.get("kty").and_then(|v| v.as_str()), Some("EC"));
    assert_eq!(jwk.get("crv").and_then(|v| v.as_str()), Some("P-256"));
    assert!(jwk.get("x").is_some());
    assert!(jwk.get("y").is_some());
    assert!(jwk.get("d").is_none());
    let payload = part(&text, 1);
    assert_eq!(payload.get("jti").and_then(|v| v.as_str()), Some("jti-1"));
    assert_eq!(payload.get("iat").and_then(|v| v.as_i64()), Some(NOW));
    assert_eq!(payload.get("htm").and_then(|v| v.as_str()), Some("GET"));
    assert_eq!(payload.get("htu").and_then(|v| v.as_str()), Some("https://pds.example/xrpc/a"));
    assert_eq!(
        payload.get("ath").and_then(|v| v.as_str()),
        Some("VVs-F9zn7J2FboQukg992P3fYjHJyHnOxy0eGr9peYE")
    );
    assert_eq!(payload.get("nonce").and_then(|v| v.as_str()), Some("NU2"));
}

#[test]
fn optional_claims_are_left_out_when_absent() {
    let text = client_proof("jti-2", NOW, None);
    let payload = part(&text, 1);
    assert!(payload.get("ath").is_none());
    assert!(payload.get("nonce").is_none());
    assert_eq!(payload.as_object().map(|o| o.len()), Some(4));
}

#[test]
fn a_public_key_cannot_sign_a_proof() {
    let public = client_key().public_projection();
    let result = sign_proof(&public, "GET", "https://x.example/", None, None, "j", NOW);
    match result {
        Err(Error::InvalidRequest(text)) => assert_eq!(text, "DPoP key must be P256 secret key"),
        _ => panic!("expected an invalid request"),
    }
}

#[test]
fn parsed_proof_yields_thumbprint_and_claims() {
    let text = client_proof("jti-3", NOW, Some("n"));
    let read = parse_proof(&text).ok().expect("a readable proof");
    assert_eq!(read.jkt, client_key().thumbprint().ok().unwrap());
    assert_eq!(read.jti, "jti-3");
    assert_eq!(read.iat, NOW);
    assert_eq!(read.htm, "POST");
    assert_eq!(read.htu, HTU);
    assert_eq!(read.ath, None);
    assert_eq!(read.nonce.as_deref(), Some("n"));
}

#[test]
fn malformed_proofs_are_told_from_bad_signatures() {
    assert!(matches!(parse_proof("abc"), Err(DpopError::MalformedProof)));
    assert!(matches!(parse_proof("a.b.c"), Err(DpopError::MalformedProof)));
    let text = client_proof("jti-4", NOW, None);
    let parts: Vec<&str> = text.split('.').collect();
    let other_payload = base64::engine::general_purpose::URL_SAFE_NO_PAD.encode(
        "{\"jti\":\"x\",\"iat\":1,\"htm\":\"POST\",\"htu\":\"https://proxy.example/oauth/par\"}",
    );
    let forged = format!("{}.{}.{}", parts[0], other_payload, parts[2]);
    assert!(matches!(parse_proof(&forged), Err(DpopError::BadSignature)));
    let short = format!("{}.{}.AAAA", parts[0], parts[1]);
    assert!(matches!(parse_proof(&short), Err(DpopError::BadSignature)));
    let undecodable = format!("{}.{}.!!", parts[0], parts[1]);
    assert!(matches!(parse_proof(&undecodable), Err(DpopError::BadSignature)));
}

#[test]
fn a_proof_that_shows_its_private_key_is_malformed() {
    let header = format!(
        "{{\"alg\":\"ES256\",\"typ\":\"dpop+jwt\",\"jwk\":{}}}",
        client_key().to_json()
    );
    let payload =
        "{\"jti\":\"x\",\"iat\":1,\"htm\":\"POST\",\"htu\":\"https://proxy.example/oauth/par\"}";
    let text = oatproxy::jws::sign_compact(&header, payload, &[7u8; 32]).unwrap();
    assert!(matches!(parse_proof(&text), Err(DpopError::MalformedProof)));
}

#[test]
fn a_proof_of_another_type_is_malformed() {
    let header = format!(
        "{{\"alg\":\"ES256\",\"typ\":\"JWT\",\"jwk\":{}}}",
        client_key().public_projection().to_json()
    );
    let payload =
        "{\"jti\":\"x\",\"iat\":1,\"htm\":\"POST\",\"htu\":\"https://proxy.example/oauth/par\"}";
    let text = oatproxy::jws::sign_compact(&header, payload, &[7u8; 32]).unwrap();
    assert!(matches!(parse_proof(&text), Err(DpopError::MalformedProof)));
}

#[test]
fn a_proof_with_incomplete_claims_is_malformed() {
    let header = format!(
        "{{\"alg\":\"ES256\",\"typ\":\"dpop+jwt\",\"jwk\":{}}}",
        client_key().public_projection().to_json()
    );
    let text = oatproxy::jws::sign_compact(&header, "{\"jti\":\"x\"}", &[7u8; 32]).unwrap();
    assert!(matches!(parse_proof(&text), Err(DpopError::MalformedProof)));
    let long = format!(
        "{{\"jti\":\"{}\",\"iat\":1,\"htm\":\"POST\",\"htu\":\"https://proxy.example/\"}}",
        "j".repeat(513)
    );
    let text = oatproxy::jws::sign_compact(&header, &long, &[7u8; 32]).unwrap();
    assert!(matches!(parse_proof(&text), Err(DpopError::MalformedProof)));
    let fits = format!(
        "{{\"jti\":\"{}\",\"iat\":1,\"htm\":\"POST\",\"htu\":\"https://proxy.example/\",\"ath\":null}}",
        "j".repeat(512)
    );
    let text = oatproxy::jws::sign_compact(&header, &fits, &[7u8; 32]).unwrap();
    assert!(parse_proof(&text).is_ok());
}

#[test]
fn freshness_window_is_300_seconds_back_and_5_ahead() {
    assert!(check_freshness(NOW, NOW).is_ok());
    assert!(check_freshness(NOW - 300, NOW).is_ok());
    assert!(matches!(check_freshness(NOW - 301, NOW), Err(DpopError::ExpiredProof)));
    assert!(check_freshness(NOW + 5, NOW).is_ok());
    assert!(matches!(check_freshness(NOW + 6, NOW), Err(DpopError::FutureProof)));
    assert!(matches!(check_freshness(i64::MIN, i64::MAX), Err(DpopError::ExpiredProof)));
    assert!(matches!(check_freshness(i64::MAX, i64::MIN), Err(DpopError::FutureProof)));
}

#[test]
fn stale_and_early_proofs_fail_verification() {
    let mut s = store();
    let old = client_proof("old", NOW - 301, None);
    assert!(matches!(
        verify_at(&mut s, &old, HTU, "POST", None, &without_nonce(), NOW),
        Err(DpopError::ExpiredProof)
    ));
    let early = client_proof("early", NOW + 6, None);
    assert!(matches!(
        verify_at(&mut s, &early, HTU, "POST", None, &without_nonce(), NOW),
        Err(DpopError::FutureProof)
    ));
    let edge = client_proof("edge", NOW - 300, None);
    assert!(verify_at(&mut s, &edge, HTU, "POST", None, &without_nonce(), NOW).is_ok());
}

#[test]
fn method_and_url_must_match_after_normalization() {
    let mut s = store();
    let text = client_proof("m1", NOW, None);
    assert!(matches!(
        verify_at(&mut s, &text, HTU, "GET", None, &without_nonce(), NOW),
        Err(DpopError::HtmMismatch)
    ));
    assert!(matches!(
        verify_at(&mut s, &text, "https://proxy.example/oauth/token", "POST", None, &without_nonce(), NOW),
        Err(DpopError::HtuMismatch)
    ));
    assert!(matches!(
        verify_at(&mut s, &text, HTU, "BREW", None, &without_nonce(), NOW),
        Err(DpopError::HtmMismatch)
    ));
    assert!(matches!(
        verify_at(&mut s, &text, "not a url", "POST", None, &without_nonce(), NOW),
        Err(DpopError::HtuMismatch)
    ));
    let accepted = verify_at(
        &mut s,
        &text,
        "HTTPS://PROXY.example:443//oauth/par?x=1#f",
        " post ",
        None,
        &without_nonce(),
        NOW,
    );
    assert!(accepted.is_ok());
}

#[test]
fn access_token_hash_is_required_when_a_token_is_presented() {
    let mut s = store();
    let bare = client_proof("a1", NOW, None);
    assert!(matches!(
        verify_at(&mut s, &bare, HTU, "POST", Some("upstream-token"), &without_nonce(), NOW),
        Err(DpopError::AthMismatch)
    ));
    let bound =
        sign_proof(&client_key(), "POST", HTU, Some("upstream-token"), None, "a2", NOW).ok().unwrap();
    assert!(matches!(
        verify_at(&mut s, &bound, HTU, "POST", Some("another-token"), &without_nonce(), NOW),
        Err(DpopError::AthMismatch)
    ));
    assert!(
        verify_at(&mut s, &bound, HTU, "POST", Some("upstream-token"), &without_nonce(), NOW).is_ok()
    );
    assert!(check_ath(&None, None));
    assert!(check_ath(&Some("whatever".to_string()), None));
    assert!(check_ath(
        &Some("VVs-F9zn7J2FboQukg992P3fYjHJyHnOxy0eGr9peYE".to_string()),
        Some("upstream-token")
    ));
    assert!(!check_ath(&Some("!!".to_string()), Some("upstream-token")));
}

#[test]
fn a_proof_is_accepted_once() {
    let mut s = store();
    let text = client_proof("once", NOW, None);
    let first = verify_at(&mut s, &text, HTU, "POST", None, &without_nonce(), NOW);
    assert_eq!(first.ok().map(|p| p.jti), Some("once".to_string()));
    assert!(matches!(
        verify_at(&mut s, &text, HTU, "POST", None, &without_nonce(), NOW + 1),
        Err(DpopError::Replay)
    ));
    assert_eq!(s.check_and_consume_nonce("fresh-key", NOW).ok(), Some(true));
}

#[test]
fn an_accepted_proof_is_recorded_under_the_hexadecimal_digest_of_its_identifier() {
    let mut s = store();
    let text = client_proof("jti-1", NOW, None);
    assert!(verify_at(&mut s, &text, HTU, "POST", None, &without_nonce(), NOW).is_ok());
    let key = "5964da055ae31cf8eb7230e190a504899c6f60f07f9f1cd3cade9fbf226e8c28";
    assert_eq!(s.check_and_consume_nonce(key, NOW).ok(), Some(false));
    assert_eq!(s.check_and_consume_nonce(&key.to_uppercase(), NOW).ok(), Some(true));
    assert_eq!(s.check_and_consume_nonce("jti-1", NOW).ok(), Some(true));
}

#[test]
fn methods_are_compared_trimmed_and_in_upper_case() {
    for (jti, method) in [("a", "get"), ("b", " Get\t"), ("c", "GET")] {
        let mut s = store();
        let text =
            sign_proof(&client_key(), method, HTU, None, None, jti, NOW).ok().expect("a proof");
        assert!(verify_at(&mut s, &text, HTU, "GET", None, &without_nonce(), NOW).is_ok());
    }
    for method in ["BREW", "GE T", "", "CONNECT"] {
        let mut s = store();
        let text =
            sign_proof(&client_key(), method, HTU, None, None, "d", NOW).ok().expect("a proof");
        assert!(matches!(
            verify_at(&mut s, &text, HTU, method, None, &without_nonce(), NOW),
            Err(DpopError::HtmMismatch)
        ));
    }
    for method in ["POST", "PUT", "PATCH", "DELETE", "HEAD", "OPTIONS", "TRACE"] {
        let mut s = store();
        let text = sign_proof(&client_key(), &method.to_lowercase(), HTU, None, None, "e", NOW)
            .ok()
            .expect("a proof");
        assert!(verify_at(&mut s, &text, HTU, method, None, &without_nonce(), NOW).is_ok());
    }
}

#[test]
fn rejected_proofs_are_not_recorded() {
    let mut s = store();
    let text = client_proof("later", NOW, None);
    assert!(verify_at(&mut s, &text, HTU, "GET", None, &without_nonce(), NOW).is_err());
    assert!(verify_at(&mut s, &text, HTU, "POST", None, &without_nonce(), NOW).is_ok());
}

#[test]
fn the_nonce_dance_ends_in_acceptance() {
    let mut s = store();
    let first = client_proof("d1", NOW, None);
    let nonce = match verify_at(&mut s, &first, HTU, "POST", None, &with_nonce(), NOW) {
        Err(DpopError::UseDpopNonce { nonce }) => nonce,
        _ => panic!("expected a nonce challenge"),
    };
    assert!(!nonce.is_empty());
    let second = client_proof("d2", NOW + 1, Some(&nonce));
    let accepted = verify_at(&mut s, &second, HTU, "POST", None, &with_nonce(), NOW + 1);
    assert_eq!(accepted.ok().map(|p| p.nonce), Some(Some(nonce.clone())));
    assert!(matches!(
        verify_at(&mut s, &second, HTU, "POST", None, &with_nonce(), NOW + 2),
        Err(DpopError::Replay)
    ));
    let retry_first = verify_at(&mut s, &first, HTU, "POST", None, &with_nonce(), NOW);
    assert!(matches!(retry_first, Err(DpopError::UseDpopNonce { .. })));
}

#[test]
fn a_nonce_is_bound_to_client_and_age() {
    let mut s = store();
    let first = client_proof("b1", NOW, None);
    let nonce = match verify_at(&mut s, &first, HTU, "POST", None, &with_nonce(), NOW) {
        Err(DpopError::UseDpopNonce { nonce }) => nonce,
        _ => panic!("expected a nonce challenge"),
    };
    let other_client =
        VerifyOptions { nonce_mode: NonceMode::Hmac(hmac()), client_id: Some("client-2".to_string()) };
    let second = client_proof("b2", NOW, Some(&nonce));
    assert!(matches!(
        verify_at(&mut s, &second, HTU, "POST", None, &other_client, NOW),
        Err(DpopError::UseDpopNonce { .. })
    ));
    let late = client_proof("b3", NOW + 301, Some(&nonce));
    assert!(matches!(
        verify_at(&mut s, &late, HTU, "POST", None, &with_nonce(), NOW + 301),
        Err(DpopError::UseDpopNonce { .. })
    ));
    let garbage = client_proof("b4", NOW, Some("not-a-nonce"));
    assert!(matches!(
        verify_at(&mut s, &garbage, HTU, "POST", None, &with_nonce(), NOW),
        Err(DpopError::UseDpopNonce { .. })
    ));
    let jkt = client_key().thumbprint().ok().unwrap();
    assert!(check_nonce(
        &hmac(),
        &nonce,
        NOW + 300,
        "https://proxy.example/oauth/par",
        "POST",
        &jkt,
        &Some("client-1".to_string())
    ));
    assert!(!check_nonce(
        &hmac(),
        &nonce,
        NOW,
        "https://proxy.example/oauth/token",
        "POST",
        &jkt,
        &Some("client-1".to_string())
    ));
}

#[test]
fn a_nonce_with_an_extreme_timestamp_is_refused_without_panic() {
    let mut bytes = vec![1u8];
    bytes.extend_from_slice(&i64::MIN.to_be_bytes());
    bytes.extend_from_slice(&[0u8; 32]);
    assert_eq!(bytes.len(), 41);
    assert_eq!(read_timestamp(&bytes), i64::MIN);
    let nonce = base64::engine::general_purpose::URL_SAFE_NO_PAD.encode(&bytes);
    assert!(!check_nonce(&hmac(), &nonce, NOW, "u", "m", "j", &None));
    let mut bytes = vec![1u8];
    bytes.extend_from_slice(&1_700_000_123i64.to_be_bytes());
    bytes.extend_from_slice(&[0u8; 32]);
    assert_eq!(read_timestamp(&bytes), 1_700_000_123);
    let mut bytes = vec![1u8];
    bytes.extend_from_slice(&(-5i64).to_be_bytes());
    bytes.extend_from_slice(&[0u8; 32]);
    assert_eq!(read_timestamp(&bytes), -5);
}

#[test]
fn verification_reads_the_clock() {
    let mut s = store();
    let now = chrono::Utc::now().timestamp();
    let text = client_proof("clock", now, None);
    assert!(verify(&mut s, &text, HTU, "POST", None, &without_nonce()).is_ok());
    let old = client_proof("clock-old", now - 1000, None);
    assert!(matches!(
        verify(&mut s, &old, HTU, "POST", None, &without_nonce()),
        Err(DpopError::ExpiredProof)
    ));
}

#[test]
fn rejections_are_reported_as_dpop_errors() {
    assert!(matches!(DpopError::HtmMismatch.into_error(), Error::DpopMethodMismatch));
    assert!(matches!(DpopError::HtuMismatch.into_error(), Error::DpopUrlMismatch));
    assert!(matches!(DpopError::Replay.into_error(), Error::DpopNonceReused));
    assert!(matches!(DpopError::ExpiredProof.into_error(), Error::DpopExpired));
    assert!(matches!(DpopError::FutureProof.into_error(), Error::DpopExpired));
    assert!(matches!(DpopError::MalformedProof.into_error(), Error::DpopInvalid));
    assert!(matches!(DpopError::BadSignature.into_error(), Error::DpopInvalid));
    assert!(matches!(DpopError::AthMismatch.into_error(), Error::DpopInvalid));
    match (DpopError::UseDpopNonce { nonce: "N".to_string() }).into_error() {
        Error::DpopNonceRequired(n) => assert_eq!(n, "N"),
        _ => panic!("expected a nonce challenge"),
    }
    match DpopError::Store("x".to_string()).into_error() {
        Error::StorageError(m) => assert_eq!(m, "x"),
        _ => panic!("expected a storage error"),
    }
    assert_eq!(DpopError::Replay.into_error().status_code(), 400);
}

#[test]
fn an_issued_nonce_carries_its_time_and_is_in_order_at_once() {
    let mut s = store();
    let first = client_proof("t1", NOW, None);
    let nonce = match verify_at(&mut s, &first, HTU, "POST", None, &with_nonce(), NOW) {
        Err(DpopError::UseDpopNonce { nonce }) => nonce,
        _ => panic!("expected a nonce challenge"),
    };
    let bytes = base64::engine::general_purpose::URL_SAFE_NO_PAD.decode(&nonce).unwrap();
    assert_eq!(bytes.len(), 41);
    assert_eq!(read_timestamp(&bytes), NOW);
    let jkt = client_key().thumbprint().ok().unwrap();
    assert!(check_nonce(
        &hmac(),
        &nonce,
        NOW,
        "https://proxy.example/oauth/par",
        "POST",
        &jkt,
        &Some("client-1".to_string())
    ));
    let fresh = oatproxy::nonce::fresh_nonce(&hmac(), NOW, "u", "GET", "j", &None);
    assert!(check_nonce(&hmac(), &fresh, NOW, "u", "GET", "j", &None));
    assert!(!check_nonce(&hmac(), &fresh, NOW, "u", "GET", "k", &None));
}

#[test]
fn identifiers_are_recorded_as_the_hex_crate_writes_their_digest() {
    for (n, jti) in ["a", "jti-1", "Z9", "\u{e9}t\u{e9}", "0123456789abcdef"].iter().enumerate() {
        let mut s = store();
        let text = client_proof(jti, NOW + n as i64, None);
        assert!(verify_at(&mut s, &text, HTU, "POST", None, &without_nonce(), NOW).is_ok());
        let key = hex::encode(sha2::Sha256::digest(jti.as_bytes()));
        assert_eq!(key.len(), 64);
        assert_eq!(s.check_and_consume_nonce(&key, NOW).ok(), Some(false), "{jti}");
    }
}

#[test]
fn methods_are_normalized_as_the_verifier_crate_normalizes_them() {
    for method in
        ["GET", "get", " Post ", "pUt", "patch\n", "\u{a0}delete", "head", "options", "TRACE"]
    {
        assert!(dpop_verifier::uri::normalize_method(method).is_ok(), "{method:?}");
        let mut s = store();
        let text =
            sign_proof(&client_key(), method, HTU, None, None, "m", NOW).ok().expect("a proof");
        let upper = method.trim().to_uppercase();
        assert!(verify_at(&mut s, &text, HTU, &upper, None, &without_nonce(), NOW).is_ok());
    }
    for method in ["CONNECT", "G ET", "", "GETS", "g\u{e9}t", "PROPFIND"] {
        assert!(dpop_verifier::uri::normalize_method(method).is_err(), "{method:?}");
        let mut s = store();
        let text =
            sign_proof(&client_key(), method, HTU, None, None, "m", NOW).ok().expect("a proof");
        assert!(matches!(
            verify_at(&mut s, &text, HTU, method, None, &without_nonce(), NOW),
            Err(DpopError::HtmMismatch)
        ));
    }
}
