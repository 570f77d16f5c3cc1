//! Verification of the proofs of possession that downstream clients
//! present.
//!
//! A proof is a compact ES256 token whose header carries the public key
//! and whose payload binds it to one HTTP request. Verification checks the
//! signature, the request binding, the age of the proof, the access-token
//! hash, a stateless HMAC-bound nonce, and that the proof was not seen
//! before.

use crate::crypto::{es256_point_accepts, es256_verify_point};
use crate::encoding::{
    base64url_decode, base64url_decoded, hex_encode, hex_lower, sha256, sha256_digest,
};
use crate::error::Error;
use crate::json::{find_member, json_members, lookup, member_views, parse_object, JsonMember};
use crate::jwk::{has_private_part, string_value, thumbprint_of, Jwk, ThumbprintOutcome};
use crate::jws::{decode_part, join_signing_input};
use crate::nonce::{check_nonce, fresh_nonce, nonce_in_order, nonce_lasts, HmacConfig, HmacView};
use crate::store::NonceStore;
use crate::text::{compact_parts, optional_view, same_bytes, same_text, split_compact, text_view};
use crate::token::{integer_of, read_integer, read_string, string_of};
use vstd::prelude::*;
use vstd::string::*;
use vstd::utf8::encode_utf8;

verus! {

/// Oldest accepted proof, in seconds.
pub const MAX_PROOF_AGE_SECONDS: i64 = 300;

/// How far in the future a proof may be dated, in seconds.
pub const MAX_FUTURE_SKEW_SECONDS: i64 = 5;

/// Longest accepted proof identifier, in bytes.
pub const MAX_JTI_BYTES: usize = 512;

/// A URL in the form in which proofs are compared: scheme and host in
/// lower case, default port dropped, query and fragment dropped, path
/// cleaned; `None` when the text is no `http` or `https` URL.
pub uninterp spec fn normalized_htu(url: Seq<char>) -> Option<Seq<char>>;

/// A character with an ASCII small letter turned into its capital.
pub open spec fn ascii_upper(c: char) -> char {
    if 'a' <= c && c <= 'z' {
        ((c as u8 - 32) as u8) as char
    } else {
        c
    }
}

/// A text with its ASCII small letters turned into capitals.
pub open spec fn upper_text(s: Seq<char>) -> Seq<char> {
    Seq::new(s.len(), |i: int| ascii_upper(s[i]))
}

/// Whether a text is one of the eight standard HTTP methods.
pub open spec fn is_standard_method(method: Seq<char>) -> bool {
    method == "GET"@ || method == "POST"@ || method == "PUT"@ || method == "PATCH"@ || method
        == "DELETE"@ || method == "HEAD"@ || method == "OPTIONS"@ || method == "TRACE"@
}

/// An HTTP method without the white space around it and in upper case;
/// `None` when that is no standard method.
pub open spec fn normalized_method(method: Seq<char>) -> Option<Seq<char>> {
    let normal = upper_text(crate::text::trimmed(method));
    if is_standard_method(normal) {
        Some(normal)
    } else {
        None
    }
}

/// Calls `dpop_verifier::uri::normalize_htu`. Trusted: the result is the
/// normalized URL, and `None` exactly when the function reports an error.
#[verifier::external_body]
pub(crate) fn normalize_htu(url: &str) -> (normal: Option<String>)
    ensures
        match normal {
            Some(n) => normalized_htu(url@) == Some(n@),
            None => normalized_htu(url@) is None,
        },
{
    dpop_verifier::uri::normalize_htu(url).ok()
}

/// Calls `dpop_verifier::uri::normalize_method`. Trusted: the result is
/// the method trimmed and in ASCII upper case where that is one of `GET`,
/// `POST`, `PUT`, `PATCH`, `DELETE`, `HEAD`, `OPTIONS` and `TRACE`, and
/// `None` otherwise.
#[verifier::external_body]
pub(crate) fn normalize_method(method: &str) -> (normal: Option<String>)
    ensures
        match normal {
            Some(n) => normalized_method(method@) == Some(n@),
            None => normalized_method(method@) is None,
        },
{
    dpop_verifier::uri::normalize_method(method).ok()
}

/// Whether proofs must carry a nonce.
pub enum NonceMode {
    /// No nonce is asked for.
    Disabled,
    /// A stateless HMAC-bound nonce is required.
    Hmac(HmacConfig),
}

/// What a verification is asked to enforce beyond the signature, the
/// request binding and the age of the proof.
pub struct VerifyOptions {
    pub nonce_mode: NonceMode,
    /// The client identifier that nonces are bound to, if any.
    pub client_id: Option<String>,
}

/// Verification options, as plain values: the nonce configuration, if
/// nonces are required, and the client identifier, if any.
pub ghost struct OptionsView {
    pub hmac: Option<HmacView>,
    pub client_id: Option<Seq<char>>,
}

impl View for VerifyOptions {
    type V = OptionsView;

    open spec fn view(&self) -> OptionsView {
        OptionsView {
            hmac: match self.nonce_mode {
                NonceMode::Disabled => None,
                NonceMode::Hmac(config) => Some(config@),
            },
            client_id: text_view(self.client_id),
        }
    }
}

/// A proof that passed verification.
#[derive(Debug)]
pub struct VerifiedProof {
    /// Thumbprint of the key that signed the proof.
    pub jkt: String,
    pub jti: String,
    pub iat: i64,
    pub htm: String,
    pub htu: String,
    pub ath: Option<String>,
    pub nonce: Option<String>,
}

/// Why a proof was not accepted.
#[derive(Debug)]
pub enum DpopError {
    MalformedProof,
    BadSignature,
    HtmMismatch,
    HtuMismatch,
    ExpiredProof,
    FutureProof,
    AthMismatch,
    /// The proof lacks a valid nonce; the client is to retry with this one.
    UseDpopNonce { nonce: String },
    Replay,
    /// The replay store failed.
    Store(String),
}

/// A proof's key thumbprint and claims, as plain values.
pub ghost struct ProofView {
    pub jkt: Seq<char>,
    pub jti: Seq<char>,
    pub iat: i64,
    pub htm: Seq<char>,
    pub htu: Seq<char>,
    pub ath: Option<Seq<char>>,
    pub nonce: Option<Seq<char>>,
}

/// What verifying a proof comes to.
pub ghost enum ProofOutcome {
    Verified(ProofView),
    MalformedProof,
    BadSignature,
    HtmMismatch,
    HtuMismatch,
    ExpiredProof,
    FutureProof,
    AthMismatch,
    UseDpopNonce,
    Replay,
}

impl View for VerifiedProof {
    type V = ProofView;

    open spec fn view(&self) -> ProofView {
        ProofView {
            jkt: self.jkt@,
            jti: self.jti@,
            iat: self.iat,
            htm: self.htm@,
            htu: self.htu@,
            ath: text_view(self.ath),
            nonce: text_view(self.nonce),
        }
    }
}

/// An optional string claim: absent or `null` is no value; anything but a
/// string is an error (`None`).
pub open spec fn optional_string_of(members: Seq<(Seq<char>, Seq<char>)>, name: Seq<char>)
    -> Option<Option<Seq<char>>> {
    match lookup(members, name) {
        None => Some(None),
        Some(v) => if v == "null"@ {
            Some(None)
        } else {
            match crate::json::json_string(encode_utf8(v)) {
                Some(text) => Some(Some(text)),
                None => None,
            }
        },
    }
}

/// The key under which a proof identifier is recorded: the hexadecimal
/// SHA-256 digest of the identifier.
pub open spec fn replay_key(jti: Seq<char>) -> Seq<char> {
    hex_lower(sha256_digest(encode_utf8(jti)))
}

/// The claims of a proof; `None` unless the payload is an object with the
/// string members `jti`, `htm`, `htu`, the integer member `iat`, optional
/// string members `ath` and `nonce`, and an identifier of at most 512
/// bytes.
pub open spec fn proof_claims(payload: Seq<u8>, jkt: Seq<char>) -> Option<ProofView> {
    match json_members(payload) {
        None => None,
        Some(m) => match (
            string_of(m, "jti"@),
            integer_of(m, "iat"@),
            string_of(m, "htm"@),
            string_of(m, "htu"@),
            optional_string_of(m, "ath"@),
            optional_string_of(m, "nonce"@),
        ) {
            (Some(jti), Some(iat), Some(htm), Some(htu), Some(ath), Some(nonce)) => {
                if encode_utf8(jti).len() > MAX_JTI_BYTES {
                    None
                } else {
                    Some(ProofView { jkt, jti, iat, htm, htu, ath, nonce })
                }
            },
            _ => None,
        },
    }
}

/// Whether a header's key is fit to verify a proof: a public `EC` key on
/// `P-256` with string coordinates.
pub open spec fn usable_key(jwk: Seq<(Seq<char>, Seq<char>)>) -> bool {
    &&& !has_private_part(jwk)
    &&& string_value(jwk, "kty"@) == Some("EC"@)
    &&& string_value(jwk, "crv"@) == Some("P-256"@)
    &&& string_value(jwk, "x"@) is Some
    &&& string_value(jwk, "y"@) is Some
}

/// What reading a proof comes to, before it is held against a request: its
/// thumbprint and claims, or the kind of its rejection. The proof must
/// have three parts that decode, a header with `alg` `ES256`, `typ`
/// `dpop+jwt` and a usable public key, a 64-byte signature that verifies
/// under that key, and complete claims.
pub open spec fn parsed_proof(proof: Seq<char>) -> Result<ProofView, ProofOutcome> {
    match compact_parts(proof) {
        None => Err(ProofOutcome::MalformedProof),
        Some((h, p, s)) => match (
            base64url_decoded(encode_utf8(h)),
            base64url_decoded(encode_utf8(p)),
        ) {
            (Some(header), Some(payload)) => match json_members(header) {
                None => Err(ProofOutcome::MalformedProof),
                Some(hm) => if string_of(hm, "alg"@) != Some("ES256"@) || string_of(hm, "typ"@)
                    != Some("dpop+jwt"@) {
                    Err(ProofOutcome::MalformedProof)
                } else {
                    match lookup(hm, "jwk"@) {
                        None => Err(ProofOutcome::MalformedProof),
                        Some(key_text) => match json_members(encode_utf8(key_text)) {
                            None => Err(ProofOutcome::MalformedProof),
                            Some(jwk) => if !usable_key(jwk) {
                                Err(ProofOutcome::MalformedProof)
                            } else {
                                match base64url_decoded(encode_utf8(s)) {
                                    None => Err(ProofOutcome::BadSignature),
                                    Some(signature) => if signature.len() != 64
                                        || !es256_point_accepts(
                                        string_value(jwk, "x"@)->0,
                                        string_value(jwk, "y"@)->0,
                                        encode_utf8(h + seq!['.'] + p),
                                        signature,
                                    ) {
                                        Err(ProofOutcome::BadSignature)
                                    } else {
                                        match thumbprint_of(jwk) {
                                            ThumbprintOutcome::Digest(jkt) => match proof_claims(
                                                payload,
                                                jkt,
                                            ) {
                                                Some(view) => Ok(view),
                                                None => Err(ProofOutcome::MalformedProof),
                                            },
                                            _ => Err(ProofOutcome::MalformedProof),
                                        }
                                    },
                                }
                            },
                        },
                    }
                },
            },
            _ => Err(ProofOutcome::MalformedProof),
        },
    }
}

/// Whether a proof's access-token hash is in order: nothing is asked when
/// the request carries no token; otherwise the claim must decode to the
/// token's SHA-256 digest.
pub open spec fn ath_in_order(ath: Option<Seq<char>>, access_token: Option<Seq<char>>) -> bool {
    match access_token {
        None => true,
        Some(token) => match ath {
            Some(a) => base64url_decoded(encode_utf8(a)) == Some(
                sha256_digest(encode_utf8(token)),
            ),
            None => false,
        },
    }
}

/// Whether a proof satisfies the nonce mode.
pub open spec fn nonce_satisfied(
    options: OptionsView,
    nonce: Option<Seq<char>>,
    now: i64,
    htu: Seq<char>,
    htm: Seq<char>,
    jkt: Seq<char>,
) -> bool {
    match options.hmac {
        None => true,
        Some(config) => match nonce {
            Some(n) => nonce_in_order(config, n, now, htu, htm, jkt, options.client_id),
            None => false,
        },
    }
}

/// What holding a proof against a request comes to, at `now`, with the
/// identifiers in `used` seen before. In this order: the method must
/// match, the URL must match, the proof must be at most 300 seconds old and
/// dated at most 5 seconds ahead, the access-token hash must be in order,
/// the nonce must be in order, and the identifier must be new.
pub open spec fn binding_outcome(
    proof: ProofView,
    expected_htu: Seq<char>,
    expected_htm: Seq<char>,
    access_token: Option<Seq<char>>,
    options: OptionsView,
    now: i64,
    used: Map<Seq<char>, i64>,
) -> ProofOutcome {
    let want_htm = normalized_method(expected_htm);
    let want_htu = normalized_htu(expected_htu);
    if want_htm is None || normalized_method(proof.htm) != want_htm {
        ProofOutcome::HtmMismatch
    } else if want_htu is None || normalized_htu(proof.htu) != want_htu {
        ProofOutcome::HtuMismatch
    } else if now - proof.iat > MAX_PROOF_AGE_SECONDS {
        ProofOutcome::ExpiredProof
    } else if proof.iat - now > MAX_FUTURE_SKEW_SECONDS {
        ProofOutcome::FutureProof
    } else if !ath_in_order(proof.ath, access_token) {
        ProofOutcome::AthMismatch
    } else if !nonce_satisfied(options, proof.nonce, now, want_htu->0, want_htm->0, proof.jkt) {
        ProofOutcome::UseDpopNonce
    } else if used.contains_key(replay_key(proof.jti)) {
        ProofOutcome::Replay
    } else {
        ProofOutcome::Verified(proof)
    }
}

/// What verifying a proof comes to: reading it, then holding it against
/// the request.
pub open spec fn proof_outcome(
    proof: Seq<char>,
    expected_htu: Seq<char>,
    expected_htm: Seq<char>,
    access_token: Option<Seq<char>>,
    options: OptionsView,
    now: i64,
    used: Map<Seq<char>, i64>,
) -> ProofOutcome {
    match parsed_proof(proof) {
        Ok(view) => binding_outcome(
            view,
            expected_htu,
            expected_htm,
            access_token,
            options,
            now,
            used,
        ),
        Err(kind) => kind,
    }
}

/// Whether a result shows an outcome. A nonce challenge may carry any
/// nonce; a failure of the store shows no outcome.
pub open spec fn shows(result: Result<VerifiedProof, DpopError>, outcome: ProofOutcome) -> bool {
    match result {
        Ok(proof) => outcome == ProofOutcome::Verified(proof@),
        Err(DpopError::MalformedProof) => outcome is MalformedProof,
        Err(DpopError::BadSignature) => outcome is BadSignature,
        Err(DpopError::HtmMismatch) => outcome is HtmMismatch,
        Err(DpopError::HtuMismatch) => outcome is HtuMismatch,
        Err(DpopError::ExpiredProof) => outcome is ExpiredProof,
        Err(DpopError::FutureProof) => outcome is FutureProof,
        Err(DpopError::AthMismatch) => outcome is AthMismatch,
        Err(DpopError::UseDpopNonce { .. }) => outcome is UseDpopNonce,
        Err(DpopError::Replay) => outcome is Replay,
        Err(DpopError::Store(_)) => false,
    }
}

/// A proof is accepted only if it is at most 300 seconds old and dated at
/// most 5 seconds ahead: one outside this window fails verification,
/// whatever else holds of it.
pub proof fn lemma_verified_is_fresh(
    proof: Seq<char>,
    expected_htu: Seq<char>,
    expected_htm: Seq<char>,
    access_token: Option<Seq<char>>,
    options: OptionsView,
    now: i64,
    used: Map<Seq<char>, i64>,
)
    ensures
        proof_outcome(proof, expected_htu, expected_htm, access_token, options, now, used)
            matches ProofOutcome::Verified(v) ==> now - v.iat <= 300 && v.iat - now <= 5,
        parsed_proof(proof) matches Ok(p) && (now - p.iat > 300 || p.iat - now > 5)
            ==> !(proof_outcome(
            proof,
            expected_htu,
            expected_htm,
            access_token,
            options,
            now,
            used,
        ) is Verified),
{
}

/// An identifier is accepted once: after a proof was accepted and its
/// identifier recorded, the same proof, and any other that carries the
/// same identifier, is rejected, against whatever request and at whatever
/// time it is presented, as long as the record is kept.
pub proof fn lemma_replay_rejected(
    proof: Seq<char>,
    expected_htu: Seq<char>,
    expected_htm: Seq<char>,
    access_token: Option<Seq<char>>,
    options: OptionsView,
    now: i64,
    used: Map<Seq<char>, i64>,
    later_proof: Seq<char>,
    later_htu: Seq<char>,
    later_htm: Seq<char>,
    later_token: Option<Seq<char>>,
    later_options: OptionsView,
    later_now: i64,
    later_used: Map<Seq<char>, i64>,
)
    requires
        proof_outcome(proof, expected_htu, expected_htm, access_token, options, now, used)
            matches ProofOutcome::Verified(v) && later_used.contains_key(replay_key(v.jti)) && (
        parsed_proof(later_proof) matches Ok(b) ==> b.jti == v.jti),
    ensures
        !(proof_outcome(
            later_proof,
            later_htu,
            later_htm,
            later_token,
            later_options,
            later_now,
            later_used,
        ) is Verified),
{
}

/// Whether the nonce of a challenge answers it: nonces are required, and
/// the nonce is in order for the request that was challenged and the key
/// that signed the proof, from `now` until it is older than the configured
/// maximal age.
pub open spec fn challenge_answerable(
    options: OptionsView,
    nonce: Seq<char>,
    now: i64,
    expected_htu: Seq<char>,
    expected_htm: Seq<char>,
    jkt: Seq<char>,
) -> bool {
    match options.hmac {
        Some(config) => normalized_htu(expected_htu) is Some && normalized_method(expected_htm)
            is Some && nonce_lasts(
            config,
            nonce,
            now,
            normalized_htu(expected_htu)->0,
            normalized_method(expected_htm)->0,
            jkt,
            options.client_id,
        ),
        None => false,
    }
}

/// Whether `second` is a proof like `first` for the same request by the
/// same key, but with the given nonce, and with an identifier and a time
/// of issue of its own.
pub open spec fn answers_with(second: ProofView, first: ProofView, nonce: Seq<char>) -> bool {
    second == (ProofView { nonce: Some(nonce), jti: second.jti, iat: second.iat, ..first })
}

/// A challenge can be answered: after a proof was challenged for its nonce
/// at `now`, a proof by the same key for the same request is accepted at
/// `at`, once it carries the nonce of the challenge, as long as the nonce
/// is no older than the configured maximal age, the proof is fresh at `at`
/// and its identifier was not seen before.
pub proof fn lemma_challenge_answered(
    first: ProofView,
    expected_htu: Seq<char>,
    expected_htm: Seq<char>,
    access_token: Option<Seq<char>>,
    options: OptionsView,
    now: i64,
    used: Map<Seq<char>, i64>,
    nonce: Seq<char>,
    second: ProofView,
    at: i64,
    later_used: Map<Seq<char>, i64>,
)
    requires
        binding_outcome(first, expected_htu, expected_htm, access_token, options, now, used)
            is UseDpopNonce,
        challenge_answerable(options, nonce, now, expected_htu, expected_htm, first.jkt),
        options.hmac matches Some(config) && 0 <= at - now <= config.max_age_seconds,
        answers_with(second, first, nonce),
        at - second.iat <= MAX_PROOF_AGE_SECONDS,
        second.iat - at <= MAX_FUTURE_SKEW_SECONDS,
        !later_used.contains_key(replay_key(second.jti)),
    ensures
        binding_outcome(second, expected_htu, expected_htm, access_token, options, at, later_used)
            == ProofOutcome::Verified(second),
{
}

/// The error under which a proof's rejection is reported over HTTP: a
/// nonce challenge keeps its nonce, a failure of the store is a storage
/// error, and the other kinds are the DPoP errors of the same meaning.
pub open spec fn reported_as(error: DpopError) -> Error {
    match error {
        DpopError::UseDpopNonce { nonce } => Error::DpopNonceRequired(nonce),
        DpopError::HtmMismatch => Error::DpopMethodMismatch,
        DpopError::HtuMismatch => Error::DpopUrlMismatch,
        DpopError::Replay => Error::DpopNonceReused,
        DpopError::ExpiredProof => Error::DpopExpired,
        DpopError::FutureProof => Error::DpopExpired,
        DpopError::Store(message) => Error::StorageError(message),
        DpopError::MalformedProof => Error::DpopInvalid,
        DpopError::BadSignature => Error::DpopInvalid,
        DpopError::AthMismatch => Error::DpopInvalid,
    }
}

impl DpopError {
    /// Turns a rejection into the error that is reported over HTTP.
    pub fn into_error(self) -> (error: Error)
        ensures
            error == reported_as(self),
    {
        match self {
            DpopError::UseDpopNonce { nonce } => Error::DpopNonceRequired(nonce),
            DpopError::HtmMismatch => Error::DpopMethodMismatch,
            DpopError::HtuMismatch => Error::DpopUrlMismatch,
            DpopError::Replay => Error::DpopNonceReused,
            DpopError::ExpiredProof => Error::DpopExpired,
            DpopError::FutureProof => Error::DpopExpired,
            DpopError::Store(message) => Error::StorageError(message),
            DpopError::MalformedProof => Error::DpopInvalid,
            DpopError::BadSignature => Error::DpopInvalid,
            DpopError::AthMismatch => Error::DpopInvalid,
        }
    }
}

/// Reads an optional string member.
pub fn read_optional_string(members: &Vec<JsonMember>, name: &str) -> (text: Option<
    Option<String>,
>)
    ensures
        match text {
            Some(t) => optional_string_of(member_views(members@), name@) == Some(text_view(t)),
            None => optional_string_of(member_views(members@), name@) is None,
        },
{
    match find_member(members, name) {
        None => Some(None),
        Some(v) => {
            if same_text(v.as_str(), "null") {
                Some(None)
            } else {
                match crate::json::parse_string(v.as_str().as_bytes()) {
                    Some(t) => Some(Some(t)),
                    None => None,
                }
            }
        },
    }
}

/// Reads the claims of a proof out of its payload.
pub fn read_proof_claims(payload: &[u8], jkt: String) -> (claims: Option<VerifiedProof>)
    ensures
        match claims {
            Some(p) => proof_claims(payload@, jkt@) == Some(p@),
            None => proof_claims(payload@, jkt@) is None,
        },
{
    let members = parse_object(payload)?;
    let jti = read_string(&members, "jti");
    let iat = read_integer(&members, "iat");
    let htm = read_string(&members, "htm");
    let htu = read_string(&members, "htu");
    let ath = read_optional_string(&members, "ath");
    let nonce = read_optional_string(&members, "nonce");
    match (jti, iat, htm, htu, ath, nonce) {
        (Some(jti), Some(iat), Some(htm), Some(htu), Some(ath), Some(nonce)) => {
            if jti.as_str().as_bytes().len() > MAX_JTI_BYTES {
                None
            } else {
                Some(VerifiedProof { jkt, jti, iat, htm, htu, ath, nonce })
            }
        },
        _ => None,
    }
}

fn is_text(found: &Option<String>, wanted: &str) -> (same: bool)
    ensures
        same == (text_view(*found) == Some(wanted@)),
{
    match found {
        Some(t) => same_text(t.as_str(), wanted),
        None => false,
    }
}

/// Reads a proof: takes it apart, checks its header and key, verifies its
/// signature, computes the key's thumbprint and reads the claims.
pub fn parse_proof(proof: &str) -> (result: Result<VerifiedProof, DpopError>)
    ensures
        match result {
            Ok(p) => parsed_proof(proof@) == Ok::<ProofView, ProofOutcome>(p@),
            Err(e) => match parsed_proof(proof@) {
                Err(kind) => shows(Err(e), kind) && (e is MalformedProof || e is BadSignature),
                Ok(_) => false,
            },
        },
{
    let (h, p, s) = match split_compact(proof) {
        Some(parts) => parts,
        None => {
            return Err(DpopError::MalformedProof);
        },
    };
    let (header, payload) = match (decode_part(h), decode_part(p)) {
        (Some(header), Some(payload)) => (header, payload),
        _ => {
            return Err(DpopError::MalformedProof);
        },
    };
    let members = match parse_object(header.as_slice()) {
        Some(m) => m,
        None => {
            return Err(DpopError::MalformedProof);
        },
    };
    if !is_text(&read_string(&members, "alg"), "ES256") || !is_text(
        &read_string(&members, "typ"),
        "dpop+jwt",
    ) {
        return Err(DpopError::MalformedProof);
    }
    let key_text = match find_member(&members, "jwk") {
        Some(t) => t,
        None => {
            return Err(DpopError::MalformedProof);
        },
    };
    let jwk = match Jwk::parse(key_text.as_str().as_bytes()) {
        Some(k) => k,
        None => {
            return Err(DpopError::MalformedProof);
        },
    };
    if jwk.has_private() || !is_text(&jwk.string_member("kty"), "EC") || !is_text(
        &jwk.string_member("crv"),
        "P-256",
    ) {
        return Err(DpopError::MalformedProof);
    }
    let (x, y) = match (jwk.string_member("x"), jwk.string_member("y")) {
        (Some(x), Some(y)) => (x, y),
        _ => {
            return Err(DpopError::MalformedProof);
        },
    };
    let signature = match decode_part(s) {
        Some(bytes) => bytes,
        None => {
            return Err(DpopError::BadSignature);
        },
    };
    let signed = join_signing_input(h, p);
    if signature.len() != 64 || !es256_verify_point(
        x.as_str(),
        y.as_str(),
        signed.as_str().as_bytes(),
        signature.as_slice(),
    ) {
        return Err(DpopError::BadSignature);
    }
    let jkt = match jwk.thumbprint() {
        Ok(t) => t,
        Err(_) => {
            return Err(DpopError::MalformedProof);
        },
    };
    match read_proof_claims(payload.as_slice(), jkt) {
        Some(view) => Ok(view),
        None => Err(DpopError::MalformedProof),
    }
}

/// Whether a proof dated `iat` is within the accepted window at `now`:
/// too old, dated too far ahead, or in order.
pub fn check_freshness(iat: i64, now: i64) -> (result: Result<(), DpopError>)
    ensures
        match result {
            Ok(()) => now - iat <= MAX_PROOF_AGE_SECONDS && iat - now <= MAX_FUTURE_SKEW_SECONDS,
            Err(e) => if now - iat > MAX_PROOF_AGE_SECONDS {
                e is ExpiredProof
            } else {
                iat - now > MAX_FUTURE_SKEW_SECONDS && e is FutureProof
            },
        },
{
    let age: i128 = (now as i128) - (iat as i128);
    if age > (MAX_PROOF_AGE_SECONDS as i128) {
        Err(DpopError::ExpiredProof)
    } else if -age > (MAX_FUTURE_SKEW_SECONDS as i128) {
        Err(DpopError::FutureProof)
    } else {
        Ok(())
    }
}

/// Checks a proof's access-token hash against the token of the request.
pub fn check_ath(ath: &Option<String>, access_token: Option<&str>) -> (valid: bool)
    ensures
        valid == ath_in_order(text_view(*ath), optional_view(access_token)),
{
    match access_token {
        None => true,
        Some(token) => match ath {
            Some(a) => {
                let expected = sha256(token.as_bytes());
                match base64url_decode(a.as_str().as_bytes()) {
                    Some(actual) => {
                        let same = same_bytes(&actual, &expected);
                        same
                    },
                    None => false,
                }
            },
            None => false,
        },
    }
}

/// Records the digest of a proof identifier at its first sight, under its
/// hexadecimal text. Returns `true` if it was not recorded before.
pub fn insert_once<N: NonceStore>(store: &mut N, jti_hash: &[u8], now: i64) -> (result: Result<
    bool,
    DpopError,
>)
    ensures
        final(store).never_fails() == old(store).never_fails(),
        old(store).never_fails() ==> result is Ok,
        result matches Ok(fresh) ==> fresh == !old(store).used().contains_key(hex_lower(jti_hash@))
            && final(store).used() == (if fresh {
            old(store).used().insert(hex_lower(jti_hash@), now)
        } else {
            old(store).used()
        }),
        result matches Err(e) ==> e is Store && final(store).used() == old(store).used(),
{
    let key = hex_encode(jti_hash);
    match store.check_and_consume_nonce(key.as_str(), now) {
        Ok(fresh) => Ok(fresh),
        Err(e) => Err(DpopError::Store(e.message())),
    }
}

/// Holds a proof that was read against a request, at `now`, and records
/// its identifier. The store is changed only when the proof is accepted:
/// its identifier is then recorded with the time `now`.
pub fn check_binding<N: NonceStore>(
    store: &mut N,
    proof: VerifiedProof,
    expected_htu: &str,
    expected_htm: &str,
    access_token: Option<&str>,
    options: &VerifyOptions,
    now: i64,
) -> (result: Result<VerifiedProof, DpopError>)
    ensures
        final(store).never_fails() == old(store).never_fails(),
        old(store).never_fails() ==> !(result matches Err(DpopError::Store(_))),
        !(result matches Err(DpopError::Store(_))) ==> shows(
            result,
            binding_outcome(
                proof@,
                expected_htu@,
                expected_htm@,
                optional_view(access_token),
                options@,
                now,
                old(store).used(),
            ),
        ),
        result matches Ok(accepted) ==> accepted == proof && final(store).used() == old(
            store,
        ).used().insert(replay_key(proof.jti@), now),
        result is Err ==> final(store).used() == old(store).used(),
        result matches Err(DpopError::UseDpopNonce { nonce }) ==> challenge_answerable(
            options@,
            nonce@,
            now,
            expected_htu@,
            expected_htm@,
            proof.jkt@,
        ),
        result matches Err(DpopError::Store(_)) ==> store_reached(
            binding_outcome(
                proof@,
                expected_htu@,
                expected_htm@,
                optional_view(access_token),
                options@,
                now,
                old(store).used(),
            ),
        ),
{
    let want_htm = match normalize_method(expected_htm) {
        Some(m) => m,
        None => {
            return Err(DpopError::HtmMismatch);
        },
    };
    match normalize_method(proof.htm.as_str()) {
        Some(m) => {
            if !same_text(m.as_str(), want_htm.as_str()) {
                return Err(DpopError::HtmMismatch);
            }
        },
        None => {
            return Err(DpopError::HtmMismatch);
        },
    }
    let want_htu = match normalize_htu(expected_htu) {
        Some(u) => u,
        None => {
            return Err(DpopError::HtuMismatch);
        },
    };
    match normalize_htu(proof.htu.as_str()) {
        Some(u) => {
            if !same_text(u.as_str(), want_htu.as_str()) {
                return Err(DpopError::HtuMismatch);
            }
        },
        None => {
            return Err(DpopError::HtuMismatch);
        },
    }
    match check_freshness(proof.iat, now) {
        Ok(()) => {},
        Err(e) => {
            return Err(e);
        },
    }
    if !check_ath(&proof.ath, access_token) {
        return Err(DpopError::AthMismatch);
    }
    match &options.nonce_mode {
        NonceMode::Disabled => {},
        NonceMode::Hmac(config) => {
            let in_order = match &proof.nonce {
                Some(n) => check_nonce(
                    config,
                    n.as_str(),
                    now,
                    want_htu.as_str(),
                    want_htm.as_str(),
                    proof.jkt.as_str(),
                    &options.client_id,
                ),
                None => false,
            };
            if !in_order {
                let nonce = fresh_nonce(
                    config,
                    now,
                    want_htu.as_str(),
                    want_htm.as_str(),
                    proof.jkt.as_str(),
                    &options.client_id,
                );
                return Err(DpopError::UseDpopNonce { nonce });
            }
        },
    }
    let digest = sha256(proof.jti.as_str().as_bytes());
    match insert_once(store, digest.as_slice(), now) {
        Ok(true) => Ok(proof),
        Ok(false) => Err(DpopError::Replay),
        Err(e) => Err(e),
    }
}

/// Verifies a proof of possession against a request, at `now`: reads the
/// proof, then holds it against the request and records its identifier.
/// With a store that does not fail, the result shows exactly the outcome
/// that [`proof_outcome`] describes.
pub fn verify_at<N: NonceStore>(
    store: &mut N,
    proof: &str,
    expected_htu: &str,
    expected_htm: &str,
    access_token: Option<&str>,
    options: &VerifyOptions,
    now: i64,
) -> (result: Result<VerifiedProof, DpopError>)
    ensures
        final(store).never_fails() == old(store).never_fails(),
        old(store).never_fails() ==> !(result matches Err(DpopError::Store(_))),
        verified_at(
            result,
            proof@,
            expected_htu@,
            expected_htm@,
            optional_view(access_token),
            options@,
            now,
            old(store).used(),
            final(store).used(),
        ),
{
    match parse_proof(proof) {
        Ok(read) => check_binding(
            store,
            read,
            expected_htu,
            expected_htm,
            access_token,
            options,
            now,
        ),
        Err(e) => Err(e),
    }
}

/// Verifies a proof of possession against a request, now. Whatever the
/// clock reads, the result is the one that [`verify_at`] gives at that
/// instant.
pub fn verify<N: NonceStore>(
    store: &mut N,
    proof: &str,
    expected_htu: &str,
    expected_htm: &str,
    access_token: Option<&str>,
    options: &VerifyOptions,
) -> (result: Result<VerifiedProof, DpopError>)
    ensures
        final(store).never_fails() == old(store).never_fails(),
        old(store).never_fails() ==> !(result matches Err(DpopError::Store(_))),
        exists|now: i64| #[trigger]
            verified_at(
                result,
                proof@,
                expected_htu@,
                expected_htm@,
                optional_view(access_token),
                options@,
                now,
                old(store).used(),
                final(store).used(),
            ),
{
    let now = crate::clock::unix_now();
    let result = verify_at(store, proof, expected_htu, expected_htm, access_token, options, now);
    proof {
        assert(verified_at(
            result,
            proof@,
            expected_htu@,
            expected_htm@,
            optional_view(access_token),
            options@,
            now,
            old(store).used(),
            store.used(),
        ));
    }
    result
}

/// Whether an outcome is one that the store of identifiers was asked for:
/// everything before the question of a replay was in order.
pub open spec fn store_reached(outcome: ProofOutcome) -> bool {
    outcome is Verified || outcome is Replay
}

/// Whether the nonce of a challenge, if `result` is one, answers it at
/// `now` for the request and the key that signed the proof.
pub open spec fn challenge_in_order(
    result: Result<VerifiedProof, DpopError>,
    proof: Seq<char>,
    expected_htu: Seq<char>,
    expected_htm: Seq<char>,
    options: OptionsView,
    now: i64,
) -> bool {
    result matches Err(DpopError::UseDpopNonce { nonce }) ==> parsed_proof(proof) matches Ok(read)
        && challenge_answerable(options, nonce@, now, expected_htu, expected_htm, read.jkt)
}

/// Whether `result` and the identifiers in `after` are what verifying at
/// `now` comes to, with the identifiers in `before` seen earlier. The
/// store can fail only where it was asked, and then nothing is recorded.
/// Otherwise the result shows the outcome, the nonce of a challenge
/// answers it, and the identifier of an accepted proof is recorded with
/// the time `now`.
pub open spec fn verified_at(
    result: Result<VerifiedProof, DpopError>,
    proof: Seq<char>,
    expected_htu: Seq<char>,
    expected_htm: Seq<char>,
    access_token: Option<Seq<char>>,
    options: OptionsView,
    now: i64,
    before: Map<Seq<char>, i64>,
    after: Map<Seq<char>, i64>,
) -> bool {
    let outcome = proof_outcome(
        proof,
        expected_htu,
        expected_htm,
        access_token,
        options,
        now,
        before,
    );
    match result {
        Err(DpopError::Store(_)) => store_reached(outcome) && after == before,
        Err(_) => shows(result, outcome) && after == before && challenge_in_order(
            result,
            proof,
            expected_htu,
            expected_htm,
            options,
            now,
        ),
        Ok(accepted) => shows(result, outcome) && after == before.insert(
            replay_key(accepted.jti@),
            now,
        ),
    }
}

} // verus!
