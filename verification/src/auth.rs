//! Helpers for resource servers that accept the proxy's tokens: reading the
//! token out of an `Authorization` header and validating it.

use crate::clock::unix_now;
use crate::crypto::{es256_accepts, es256_verify, SigningKey};
use crate::encoding::base64url_decoded;
use crate::error::{invalid_request, Error};
use crate::json::{json_members, parse_object};
use crate::jws::{decode_part, join_signing_input};
use crate::store::{is_store_failure, KeyStore};
use crate::text::{compact_parts, same_text, split_compact, strip_prefix};
use crate::token::{integer_of, read_integer, read_string, string_of};
use vstd::prelude::*;
use vstd::string::*;
use vstd::utf8::encode_utf8;

verus! {

/// The claims of a token that the proxy issued for a session.
#[derive(Debug, Clone)]
pub struct ProxyJwtClaims {
    /// Subject: the account DID.
    pub sub: String,
    /// Issuer: the proxy's URL.
    pub iss: String,
    /// Audience: the client identifier.
    pub aud: String,
    /// Issued at, in seconds since the epoch.
    pub iat: i64,
    /// Expires at, in seconds since the epoch.
    pub exp: i64,
    pub session_id: String,
}

/// The claims of a session token, as plain texts and numbers.
pub ghost struct ProxyClaimsView {
    pub sub: Seq<char>,
    pub iss: Seq<char>,
    pub aud: Seq<char>,
    pub iat: i64,
    pub exp: i64,
    pub session_id: Seq<char>,
}

impl View for ProxyJwtClaims {
    type V = ProxyClaimsView;

    open spec fn view(&self) -> ProxyClaimsView {
        ProxyClaimsView {
            sub: self.sub@,
            iss: self.iss@,
            aud: self.aud@,
            iat: self.iat,
            exp: self.exp,
            session_id: self.session_id@,
        }
    }
}

/// The token in an `Authorization` header value of the scheme `Bearer`,
/// written with a capital or a small initial.
pub open spec fn bearer_token_of(header: Seq<char>) -> Option<Seq<char>> {
    if "Bearer "@.is_prefix_of(header) {
        Some(header.subrange("Bearer "@.len() as int, header.len() as int))
    } else if "bearer "@.is_prefix_of(header) {
        Some(header.subrange("bearer "@.len() as int, header.len() as int))
    } else {
        None
    }
}

/// The token in an `Authorization` header value of the scheme `DPoP` or
/// `Bearer`, in this order of preference.
pub open spec fn access_token_of(header: Seq<char>) -> Option<Seq<char>> {
    if "DPoP "@.is_prefix_of(header) {
        Some(header.subrange("DPoP "@.len() as int, header.len() as int))
    } else if "Bearer "@.is_prefix_of(header) {
        Some(header.subrange("Bearer "@.len() as int, header.len() as int))
    } else {
        None
    }
}

/// Extracts a bearer token from an `Authorization` header value.
pub fn extract_bearer_token(auth_header: &str) -> (token: Option<&str>)
    ensures
        match token {
            Some(t) => bearer_token_of(auth_header@) == Some(t@),
            None => bearer_token_of(auth_header@) is None,
        },
{
    match strip_prefix(auth_header, "Bearer ") {
        Some(t) => Some(t),
        None => strip_prefix(auth_header, "bearer "),
    }
}

/// Extracts the access token from an `Authorization` header value of the
/// scheme `DPoP` or `Bearer`.
pub fn extract_access_token(auth_header: &str) -> (token: Option<&str>)
    ensures
        match token {
            Some(t) => access_token_of(auth_header@) == Some(t@),
            None => access_token_of(auth_header@) is None,
        },
{
    match strip_prefix(auth_header, "DPoP ") {
        Some(t) => Some(t),
        None => strip_prefix(auth_header, "Bearer "),
    }
}

/// The claims that a session token's payload spells; `None` unless it is
/// an object with the string members `sub`, `iss`, `aud`, `session_id` and
/// the integer members `iat` and `exp`.
pub open spec fn proxy_claims_of(payload: Seq<u8>) -> Option<ProxyClaimsView> {
    match json_members(payload) {
        None => None,
        Some(m) => match (
            string_of(m, "sub"@),
            string_of(m, "iss"@),
            string_of(m, "aud"@),
            integer_of(m, "iat"@),
            integer_of(m, "exp"@),
            string_of(m, "session_id"@),
        ) {
            (Some(sub), Some(iss), Some(aud), Some(iat), Some(exp), Some(session_id)) => Some(
                ProxyClaimsView { sub, iss, aud, iat, exp, session_id },
            ),
            _ => None,
        },
    }
}

/// What validating a session token comes to: its claims, or the reason
/// why it is rejected. The token must have three parts, a 64-byte
/// signature that verifies under the proxy's key, complete claims, the
/// expected issuer, and must expire later than `now`.
pub open spec fn proxy_validation_of(
    token: Seq<char>,
    secret: Seq<u8>,
    issuer: Seq<char>,
    now: i64,
) -> Result<ProxyClaimsView, Seq<char>> {
    match compact_parts(token) {
        None => Err("invalid JWT format"@),
        Some((h, p, s)) => match base64url_decoded(encode_utf8(s)) {
            None => Err("invalid signature"@),
            Some(signature) => if signature.len() != 64 {
                Err("invalid signature length"@)
            } else if !es256_accepts(secret, encode_utf8(h + seq!['.'] + p), signature) {
                Err("JWT verification failed"@)
            } else {
                match base64url_decoded(encode_utf8(p)) {
                    None => Err("invalid payload"@),
                    Some(payload) => match proxy_claims_of(payload) {
                        None => Err("invalid JWT claims"@),
                        Some(claims) => if claims.iss != issuer {
                            Err("invalid issuer: expected "@ + issuer + ", got "@ + claims.iss)
                        } else if claims.exp <= now {
                            Err("JWT expired"@)
                        } else {
                            Ok(claims)
                        },
                    },
                }
            },
        },
    }
}

/// Whether `result` is what validating at `now` comes to: the claims, or
/// an invalid-request error that carries the reason.
pub open spec fn proxy_validated_at(
    result: Result<ProxyJwtClaims, Error>,
    token: Seq<char>,
    secret: Seq<u8>,
    issuer: Seq<char>,
    now: i64,
) -> bool {
    match result {
        Ok(claims) => proxy_validation_of(token, secret, issuer, now) == Ok::<
            ProxyClaimsView,
            Seq<char>,
        >(claims@),
        Err(Error::InvalidRequest(reason)) => proxy_validation_of(token, secret, issuer, now)
            == Err::<ProxyClaimsView, Seq<char>>(reason@),
        Err(_) => false,
    }
}

fn read_proxy_claims(payload: &[u8]) -> (claims: Option<ProxyJwtClaims>)
    ensures
        match claims {
            Some(c) => proxy_claims_of(payload@) == Some(c@),
            None => proxy_claims_of(payload@) is None,
        },
{
    let members = parse_object(payload)?;
    let sub = read_string(&members, "sub");
    let iss = read_string(&members, "iss");
    let aud = read_string(&members, "aud");
    let iat = read_integer(&members, "iat");
    let exp = read_integer(&members, "exp");
    let session_id = read_string(&members, "session_id");
    match (sub, iss, aud, iat, exp, session_id) {
        (Some(sub), Some(iss), Some(aud), Some(iat), Some(exp), Some(session_id)) => Some(
            ProxyJwtClaims { sub, iss, aud, iat, exp, session_id },
        ),
        _ => None,
    }
}

/// Validates a session token against `key` at `now`.
pub fn validate_proxy_jwt_at(
    token: &str,
    key: &SigningKey,
    expected_issuer: &str,
    now: i64,
) -> (result: Result<ProxyJwtClaims, Error>)
    ensures
        proxy_validated_at(result, token@, key@, expected_issuer@, now),
{
    let (h, p, s) = match split_compact(token) {
        Some(parts) => parts,
        None => {
            return invalid_request("invalid JWT format");
        },
    };
    let signature = match decode_part(s) {
        Some(bytes) => bytes,
        None => {
            return invalid_request("invalid signature");
        },
    };
    if signature.len() != 64 {
        return invalid_request("invalid signature length");
    }
    let signed = join_signing_input(h, p);
    if !es256_verify(key.secret.as_slice(), signed.as_str().as_bytes(), signature.as_slice()) {
        return invalid_request("JWT verification failed");
    }
    let payload = match decode_part(p) {
        Some(bytes) => bytes,
        None => {
            return invalid_request("invalid payload");
        },
    };
    let claims = match read_proxy_claims(payload.as_slice()) {
        Some(c) => c,
        None => {
            return invalid_request("invalid JWT claims");
        },
    };
    if !same_text(claims.iss.as_str(), expected_issuer) {
        let reason = String::from_str("invalid issuer: expected ").concat(expected_issuer).concat(
            ", got ",
        ).concat(claims.iss.as_str());
        return Err(Error::InvalidRequest(reason));
    }
    if claims.exp <= now {
        return invalid_request("JWT expired");
    }
    Ok(claims)
}

/// Validates a session token against the proxy's key, now. Whatever the
/// clock reads, the result is the one that [`validate_proxy_jwt_at`] gives
/// at that instant; a key store that fails passes its error on.
pub fn validate_proxy_jwt<K: KeyStore>(
    token: &str,
    key_store: &K,
    expected_issuer: &str,
) -> (result: Result<ProxyJwtClaims, Error>)
    ensures
        is_store_failure(result) || (exists|now: i64| #[trigger]
            proxy_validated_at(
                result,
                token@,
                key_store.signing_secret(),
                expected_issuer@,
                now,
            )),
        key_store.never_fails() ==> (exists|now: i64| #[trigger]
            proxy_validated_at(
                result,
                token@,
                key_store.signing_secret(),
                expected_issuer@,
                now,
            )),
{
    let key = match key_store.get_signing_key() {
        Ok(k) => k,
        Err(e) => {
            return Err(e);
        },
    };
    let now = unix_now();
    let result = validate_proxy_jwt_at(token, &key, expected_issuer, now);
    assert(proxy_validated_at(
        result,
        token@,
        key_store.signing_secret(),
        expected_issuer@,
        now,
    ));
    result
}

} // verus!
