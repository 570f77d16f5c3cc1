//! Signing proofs of possession for upstream requests.

use crate::encoding::{digest_text, hash_text};
use crate::error::Error;
use crate::json::{
    integer_member, integer_text, json_quoted, member_views, object_text, raw_member, string_member,
    write_object,
};
use crate::jwk::{projection_of, signing_secret_of, Jwk};
use crate::jws::{compact_jws, sign_compact};
use crate::text::optional_view;
use vstd::prelude::*;
use vstd::string::*;

verus! {

/// The header of a proof signed with `key`: the algorithm, the type, and
/// the public projection of the key.
pub open spec fn proof_header(key: Seq<(Seq<char>, Seq<char>)>) -> Seq<char> {
    object_text(
        seq![
            ("alg"@, json_quoted("ES256"@)),
            ("typ"@, json_quoted("dpop+jwt"@)),
            ("jwk"@, object_text(projection_of(key))),
        ],
    )
}

/// The claims of a proof: the identifier, the time of issue, the method
/// and URL of the request, then the hash of the access token and the nonce
/// where there are any.
pub open spec fn proof_payload_members(
    jti: Seq<char>,
    iat: i64,
    htm: Seq<char>,
    htu: Seq<char>,
    access_token: Option<Seq<char>>,
    nonce: Option<Seq<char>>,
) -> Seq<(Seq<char>, Seq<char>)> {
    seq![
        ("jti"@, json_quoted(jti)),
        ("iat"@, integer_text(iat as int)),
        ("htm"@, json_quoted(htm)),
        ("htu"@, json_quoted(htu)),
    ] + (match access_token {
        Some(token) => seq![("ath"@, json_quoted(digest_text(token)))],
        None => Seq::empty(),
    }) + (match nonce {
        Some(n) => seq![("nonce"@, json_quoted(n))],
        None => Seq::empty(),
    })
}

/// The proof for a request: header and claims, signed with the key's
/// private scalar. `None` when the key has none, or cannot sign.
pub open spec fn signed_proof(
    key: Seq<(Seq<char>, Seq<char>)>,
    htm: Seq<char>,
    htu: Seq<char>,
    access_token: Option<Seq<char>>,
    nonce: Option<Seq<char>>,
    jti: Seq<char>,
    now: i64,
) -> Option<Seq<char>> {
    match signing_secret_of(key) {
        Some(secret) => compact_jws(
            proof_header(key),
            object_text(proof_payload_members(jti, now, htm, htu, access_token, nonce)),
            secret,
        ),
        None => None,
    }
}

/// Whether `result` is the proof for a request, or an invalid-request
/// error when there is none.
pub open spec fn proof_signed(
    result: Result<String, Error>,
    key: Seq<(Seq<char>, Seq<char>)>,
    htm: Seq<char>,
    htu: Seq<char>,
    access_token: Option<Seq<char>>,
    nonce: Option<Seq<char>>,
    jti: Seq<char>,
    now: i64,
) -> bool {
    match result {
        Ok(proof) => signed_proof(key, htm, htu, access_token, nonce, jti, now) == Some(proof@),
        Err(e) => signed_proof(key, htm, htu, access_token, nonce, jti, now) is None && e
            is InvalidRequest,
    }
}

/// Signs a proof of possession for one request: the method `htm`, the URL
/// `htu`, the identifier `jti`, issued at `now`, with the hash of the
/// access token and the nonce where the request has them. The header
/// carries the public projection of `key`.
pub fn sign_proof(
    key: &Jwk,
    htm: &str,
    htu: &str,
    access_token: Option<&str>,
    nonce: Option<&str>,
    jti: &str,
    now: i64,
) -> (result: Result<String, Error>)
    ensures
        proof_signed(
            result,
            key@,
            htm@,
            htu@,
            optional_view(access_token),
            optional_view(nonce),
            jti@,
            now,
        ),
{
    let secret = match key.signing_secret() {
        Ok(s) => s,
        Err(e) => {
            return Err(e);
        },
    };
    let header = vec![
        string_member("alg", "ES256"),
        string_member("typ", "dpop+jwt"),
        raw_member("jwk", key.public_projection().to_json()),
    ];
    let mut claims = vec![
        string_member("jti", jti),
        integer_member("iat", now),
        string_member("htm", htm),
        string_member("htu", htu),
    ];
    let ghost base = member_views(claims@);
    proof {
        assert(base =~= seq![
            ("jti"@, json_quoted(jti@)),
            ("iat"@, integer_text(now as int)),
            ("htm"@, json_quoted(htm@)),
            ("htu"@, json_quoted(htu@)),
        ]);
    }
    if let Some(token) = access_token {
        claims.push(string_member("ath", hash_text(token).as_str()));
    }
    let ghost with_ath = member_views(claims@);
    proof {
        assert(with_ath =~= base + (match optional_view(access_token) {
            Some(token) => seq![("ath"@, json_quoted(digest_text(token)))],
            None => Seq::empty(),
        }));
    }
    if let Some(n) = nonce {
        claims.push(string_member("nonce", n));
    }
    proof {
        assert(member_views(claims@) =~= with_ath + (match optional_view(nonce) {
            Some(n) => seq![("nonce"@, json_quoted(n))],
            None => Seq::empty(),
        }));
        assert(member_views(header@) =~= seq![
            ("alg"@, json_quoted("ES256"@)),
            ("typ"@, json_quoted("dpop+jwt"@)),
            ("jwk"@, object_text(projection_of(key@))),
        ]);
    }
    let header_text = write_object(&header);
    let payload_text = write_object(&claims);
    match sign_compact(header_text.as_str(), payload_text.as_str(), secret.as_slice()) {
        Some(proof) => Ok(proof),
        None => Err(Error::InvalidRequest(String::from_str("failed to sign DPoP proof"))),
    }
}

} // verus!
