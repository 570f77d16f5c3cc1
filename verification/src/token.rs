//! The token manager: it issues and validates the access tokens that the
//! proxy hands to downstream clients. A token is an ES256-signed JWT whose
//! `cnf.jkt` claim binds it to the client's DPoP key.

use crate::clock::{add_seconds, later, unix_now};
use crate::crypto::{es256_accepts, es256_verify, SigningKey};
use crate::encoding::base64url_decoded;
use crate::error::{invalid_request, Error};
use crate::json::{
    find_member, integer_member, integer_text, json_integer, json_members, json_quoted, json_string,
    lookup, member_views, object_text, parse_integer, parse_object, parse_string, raw_member,
    string_member, write_object, JsonMember,
};
use crate::jws::{compact_jws, decode_part, join_signing_input, sign_compact, signature_accepted};
use crate::session::OAuthSession;
use crate::store::{is_store_failure, KeyStore};
use crate::text::{compact_parts, same_text, split_compact};
use vstd::prelude::*;
use vstd::string::*;
use vstd::utf8::encode_utf8;

verus! {

/// Seconds for which the token issued for a whole-session record is valid.
pub const SESSION_TOKEN_LIFETIME_SECONDS: i64 = 86400;

/// Issues and validates downstream tokens in the name of one issuer.
pub struct TokenManager {
    issuer: String,
}

/// The confirmation claim: the thumbprint of the key a token is bound to.
#[derive(Debug)]
pub struct ConfirmationClaim {
    pub jkt: String,
}

/// The claims of a downstream token.
#[derive(Debug)]
pub struct DownstreamTokenClaims {
    pub iss: String,
    /// The account DID.
    pub sub: String,
    pub aud: String,
    pub exp: i64,
    pub iat: i64,
    pub scope: String,
    pub cnf: ConfirmationClaim,
}

/// The claims of a downstream token, as plain texts and numbers.
pub ghost struct ClaimsView {
    pub iss: Seq<char>,
    pub sub: Seq<char>,
    pub aud: Seq<char>,
    pub exp: i64,
    pub iat: i64,
    pub scope: Seq<char>,
    pub jkt: Seq<char>,
}

impl View for DownstreamTokenClaims {
    type V = ClaimsView;

    open spec fn view(&self) -> ClaimsView {
        ClaimsView {
            iss: self.iss@,
            sub: self.sub@,
            aud: self.aud@,
            exp: self.exp,
            iat: self.iat,
            scope: self.scope@,
            jkt: self.cnf.jkt@,
        }
    }
}

/// The text of the string member called `name`, if there is one.
pub open spec fn string_of(members: Seq<(Seq<char>, Seq<char>)>, name: Seq<char>) -> Option<
    Seq<char>,
> {
    match lookup(members, name) {
        Some(v) => json_string(encode_utf8(v)),
        None => None,
    }
}

/// The number of the integer member called `name`, if there is one.
pub open spec fn integer_of(members: Seq<(Seq<char>, Seq<char>)>, name: Seq<char>) -> Option<i64> {
    match lookup(members, name) {
        Some(v) => json_integer(encode_utf8(v)),
        None => None,
    }
}

/// The header of every downstream token.
pub open spec fn downstream_header() -> Seq<char> {
    object_text(seq![("alg"@, json_quoted("ES256"@)), ("typ"@, json_quoted("JWT"@))])
}

/// The payload of a downstream token: the issuer is also the audience, and
/// `cnf.jkt` is the thumbprint of the client's key.
pub open spec fn downstream_payload(
    issuer: Seq<char>,
    sub: Seq<char>,
    jkt: Seq<char>,
    scope: Seq<char>,
    iat: i64,
    exp: i64,
) -> Seq<char> {
    object_text(
        seq![
            ("iss"@, json_quoted(issuer)),
            ("sub"@, json_quoted(sub)),
            ("aud"@, json_quoted(issuer)),
            ("exp"@, integer_text(exp as int)),
            ("iat"@, integer_text(iat as int)),
            ("scope"@, json_quoted(scope)),
            ("cnf"@, object_text(seq![("jkt"@, json_quoted(jkt))])),
        ],
    )
}

/// The downstream token issued at `now` for `expires_in` seconds, signed
/// with `secret`; `None` when `secret` cannot sign.
pub open spec fn downstream_jwt(
    issuer: Seq<char>,
    sub: Seq<char>,
    jkt: Seq<char>,
    scope: Seq<char>,
    expires_in: i64,
    now: i64,
    secret: Seq<u8>,
) -> Option<Seq<char>> {
    compact_jws(
        downstream_header(),
        downstream_payload(issuer, sub, jkt, scope, now, later(now, expires_in)),
        secret,
    )
}

/// Whether `result` is what issuing at `now` comes to: the token, or an
/// internal error when the key cannot sign.
pub open spec fn issued_at(
    result: Result<String, Error>,
    issuer: Seq<char>,
    sub: Seq<char>,
    jkt: Seq<char>,
    scope: Seq<char>,
    expires_in: i64,
    now: i64,
    secret: Seq<u8>,
) -> bool {
    match result {
        Ok(token) => downstream_jwt(issuer, sub, jkt, scope, expires_in, now, secret) == Some(
            token@,
        ),
        Err(e) => downstream_jwt(issuer, sub, jkt, scope, expires_in, now, secret) is None && e
            is Internal,
    }
}

/// The claims that a payload document spells; `None` unless it is an
/// object with the string members `iss`, `sub`, `aud` and `scope`, the
/// integer members `exp` and `iat`, and an object member `cnf` with a string
/// member `jkt`.
pub open spec fn claims_of(payload: Seq<u8>) -> Option<ClaimsView> {
    match json_members(payload) {
        None => None,
        Some(m) => match (
            string_of(m, "iss"@),
            string_of(m, "sub"@),
            string_of(m, "aud"@),
            integer_of(m, "exp"@),
            integer_of(m, "iat"@),
            string_of(m, "scope"@),
            lookup(m, "cnf"@),
        ) {
            (Some(iss), Some(sub), Some(aud), Some(exp), Some(iat), Some(scope), Some(cnf)) => {
                match json_members(encode_utf8(cnf)) {
                    Some(c) => match string_of(c, "jkt"@) {
                        Some(jkt) => Some(ClaimsView { iss, sub, aud, exp, iat, scope, jkt }),
                        None => None,
                    },
                    None => None,
                }
            },
            _ => None,
        },
    }
}

/// A token taken apart, before its signature is checked.
pub struct DecodedToken {
    /// The payload's JSON bytes.
    pub payload: Vec<u8>,
    /// The signature's bytes.
    pub signature: Vec<u8>,
    /// The text that the signature covers.
    pub signed: String,
}

/// A token taken apart, as plain values.
pub ghost struct DecodedView {
    pub payload: Seq<u8>,
    pub signature: Seq<u8>,
    pub signed: Seq<char>,
}

impl View for DecodedToken {
    type V = DecodedView;

    open spec fn view(&self) -> DecodedView {
        DecodedView { payload: self.payload@, signature: self.signature@, signed: self.signed@ }
    }
}

/// What taking a token apart comes to: its parts, or the reason why it is
/// rejected. The token must have three parts, a header that is a JSON
/// object naming the algorithm ES256, and a decodable payload and signature.
pub open spec fn decoding_of(jwt: Seq<char>) -> Result<DecodedView, Seq<char>> {
    match compact_parts(jwt) {
        None => Err("invalid JWT format"@),
        Some((h, p, s)) => match base64url_decoded(encode_utf8(h)) {
            None => Err("invalid header encoding"@),
            Some(header) => match json_members(header) {
                None => Err("invalid header JSON"@),
                Some(members) => match string_of(members, "alg"@) {
                    None => Err("missing alg in header"@),
                    Some(alg) => if alg != "ES256"@ {
                        Err("unsupported algorithm: "@ + alg)
                    } else {
                        match base64url_decoded(encode_utf8(p)) {
                            None => Err("invalid payload encoding"@),
                            Some(payload) => match base64url_decoded(encode_utf8(s)) {
                                None => Err("invalid signature encoding"@),
                                Some(signature) => Ok(
                                    DecodedView {
                                        payload,
                                        signature,
                                        signed: h + seq!['.'] + p,
                                    },
                                ),
                            },
                        }
                    },
                },
            },
        },
    }
}

/// What checking a decoded token comes to: its claims, or the reason why
/// it is rejected. The signature must be 64 bytes and verify under the
/// proxy's key, the claims must be complete, the issuer must be this
/// proxy, and the token must expire later than `now`.
pub open spec fn checking_of(token: DecodedView, secret: Seq<u8>, issuer: Seq<char>, now: i64)
    -> Result<ClaimsView, Seq<char>> {
    if token.signature.len() != 64 {
        Err("invalid signature format"@)
    } else if !es256_accepts(secret, encode_utf8(token.signed), token.signature) {
        Err("signature verification failed"@)
    } else {
        match claims_of(token.payload) {
            None => Err("invalid claims"@),
            Some(claims) => if claims.iss != issuer {
                Err("wrong issuer"@)
            } else if claims.exp <= now {
                Err("token expired"@)
            } else {
                Ok(claims)
            },
        }
    }
}

/// What validating a token comes to: decoding, then checking.
pub open spec fn validation_of(jwt: Seq<char>, secret: Seq<u8>, issuer: Seq<char>, now: i64)
    -> Result<ClaimsView, Seq<char>> {
    match decoding_of(jwt) {
        Ok(token) => checking_of(token, secret, issuer, now),
        Err(reason) => Err(reason),
    }
}

/// Whether `result` reports `outcome`: the claims, or an invalid-request
/// error that carries the reason.
pub open spec fn reports(
    result: Result<DownstreamTokenClaims, Error>,
    outcome: Result<ClaimsView, Seq<char>>,
) -> bool {
    match result {
        Ok(claims) => outcome == Ok::<ClaimsView, Seq<char>>(claims@),
        Err(Error::InvalidRequest(reason)) => outcome == Err::<ClaimsView, Seq<char>>(reason@),
        Err(_) => false,
    }
}

/// Whether `result` is what validating at `now` comes to.
pub open spec fn validated_at(
    result: Result<DownstreamTokenClaims, Error>,
    jwt: Seq<char>,
    secret: Seq<u8>,
    issuer: Seq<char>,
    now: i64,
) -> bool {
    reports(result, validation_of(jwt, secret, issuer, now))
}

/// Reads the string member called `name`.
pub fn read_string(members: &Vec<JsonMember>, name: &str) -> (text: Option<String>)
    ensures
        match text {
            Some(t) => string_of(member_views(members@), name@) == Some(t@),
            None => string_of(member_views(members@), name@) is None,
        },
{
    match find_member(members, name) {
        Some(v) => parse_string(v.as_str().as_bytes()),
        None => None,
    }
}

/// Reads the integer member called `name`.
pub fn read_integer(members: &Vec<JsonMember>, name: &str) -> (number: Option<i64>)
    ensures
        number == integer_of(member_views(members@), name@),
{
    match find_member(members, name) {
        Some(v) => parse_integer(v.as_str().as_bytes()),
        None => None,
    }
}

/// Reads the claims out of a payload document.
pub fn read_claims(payload: &[u8]) -> (claims: Option<DownstreamTokenClaims>)
    ensures
        match claims {
            Some(c) => claims_of(payload@) == Some(c@),
            None => claims_of(payload@) is None,
        },
{
    let members = parse_object(payload)?;
    let iss = read_string(&members, "iss");
    let sub = read_string(&members, "sub");
    let aud = read_string(&members, "aud");
    let exp = read_integer(&members, "exp");
    let iat = read_integer(&members, "iat");
    let scope = read_string(&members, "scope");
    let cnf = find_member(&members, "cnf");
    match (iss, sub, aud, exp, iat, scope, cnf) {
        (Some(iss), Some(sub), Some(aud), Some(exp), Some(iat), Some(scope), Some(cnf)) => {
            let inner = parse_object(cnf.as_str().as_bytes())?;
            let jkt = read_string(&inner, "jkt")?;
            Some(
                DownstreamTokenClaims {
                    iss,
                    sub,
                    aud,
                    exp,
                    iat,
                    scope,
                    cnf: ConfirmationClaim { jkt },
                },
            )
        },
        _ => None,
    }
}

/// Takes a token apart and checks its header: three parts, a JSON object
/// header with `alg` equal to `ES256`, a payload and a signature that
/// decode.
pub fn decode_token(jwt: &str) -> (result: Result<DecodedToken, Error>)
    ensures
        match result {
            Ok(token) => decoding_of(jwt@) == Ok::<DecodedView, Seq<char>>(token@),
            Err(e) => e matches Error::InvalidRequest(reason) && decoding_of(jwt@) == Err::<
                DecodedView,
                Seq<char>,
            >(reason@),
        },
{
    let (h, p, s) = match split_compact(jwt) {
        Some(parts) => parts,
        None => {
            return invalid_request("invalid JWT format");
        },
    };
    let header = match decode_part(h) {
        Some(bytes) => bytes,
        None => {
            return invalid_request("invalid header encoding");
        },
    };
    let members = match parse_object(header.as_slice()) {
        Some(m) => m,
        None => {
            return invalid_request("invalid header JSON");
        },
    };
    let alg = match read_string(&members, "alg") {
        Some(a) => a,
        None => {
            return invalid_request("missing alg in header");
        },
    };
    if !same_text(alg.as_str(), "ES256") {
        return Err(
            Error::InvalidRequest(
                String::from_str("unsupported algorithm: ").concat(alg.as_str()),
            ),
        );
    }
    let payload = match decode_part(p) {
        Some(bytes) => bytes,
        None => {
            return invalid_request("invalid payload encoding");
        },
    };
    let signature = match decode_part(s) {
        Some(bytes) => bytes,
        None => {
            return invalid_request("invalid signature encoding");
        },
    };
    Ok(DecodedToken { payload, signature, signed: join_signing_input(h, p) })
}

/// Checks the claims of a token whose signature has been verified: the
/// issuer must be `issuer`, and the token must expire later than `now`.
pub fn check_claims(claims: DownstreamTokenClaims, issuer: &str, now: i64) -> (result: Result<
    DownstreamTokenClaims,
    Error,
>)
    ensures
        match result {
            Ok(accepted) => claims.iss@ == issuer@ && claims.exp > now && accepted == claims,
            Err(e) => e matches Error::InvalidRequest(reason) && (if claims.iss@ != issuer@ {
                reason@ == "wrong issuer"@
            } else {
                claims.exp <= now && reason@ == "token expired"@
            }),
        },
{
    if !same_text(claims.iss.as_str(), issuer) {
        return invalid_request("wrong issuer");
    }
    if claims.exp <= now {
        return invalid_request("token expired");
    }
    Ok(claims)
}

impl TokenManager {
    /// A token manager for the given issuer.
    pub fn new(issuer: String) -> (manager: TokenManager)
        ensures
            manager.issuer() == issuer@,
    {
        TokenManager { issuer }
    }

    /// The issuer in whose name tokens are issued: the proxy's public URL.
    pub closed spec fn issuer(&self) -> Seq<char> {
        self.issuer@
    }

    /// The issuer's text.
    pub fn issuer_text(&self) -> (text: &str)
        ensures
            text@ == self.issuer(),
    {
        self.issuer.as_str()
    }

    /// Issues a downstream token at `now`, signed with `key`: the subject
    /// is `sub`, the issuer is also the audience, the token is valid for
    /// `expires_in_seconds`, and its `cnf.jkt` is `dpop_jkt`. The signature
    /// of a token that is issued verifies under the public key of `key`.
    pub fn issue_downstream_jwt_at(
        &self,
        sub: &str,
        dpop_jkt: &str,
        scope: &str,
        expires_in_seconds: i64,
        key: &SigningKey,
        now: i64,
    ) -> (result: Result<String, Error>)
        ensures
            issued_at(
                result,
                self.issuer(),
                sub@,
                dpop_jkt@,
                scope@,
                expires_in_seconds,
                now,
                key@,
            ),
            result is Ok ==> signature_accepted(
                downstream_header(),
                downstream_payload(
                    self.issuer(),
                    sub@,
                    dpop_jkt@,
                    scope@,
                    now,
                    later(now, expires_in_seconds),
                ),
                key@,
            ),
    {
        let exp = add_seconds(now, expires_in_seconds);
        let header = vec![string_member("alg", "ES256"), string_member("typ", "JWT")];
        let cnf = vec![string_member("jkt", dpop_jkt)];
        let claims = vec![
            string_member("iss", self.issuer.as_str()),
            string_member("sub", sub),
            string_member("aud", self.issuer.as_str()),
            integer_member("exp", exp),
            integer_member("iat", now),
            string_member("scope", scope),
            raw_member("cnf", write_object(&cnf)),
        ];
        proof {
            assert(member_views(header@) =~= seq![
                ("alg"@, json_quoted("ES256"@)),
                ("typ"@, json_quoted("JWT"@)),
            ]);
            assert(member_views(cnf@) =~= seq![("jkt"@, json_quoted(dpop_jkt@))]);
            assert(member_views(claims@) =~= seq![
                ("iss"@, json_quoted(self.issuer@)),
                ("sub"@, json_quoted(sub@)),
                ("aud"@, json_quoted(self.issuer@)),
                ("exp"@, integer_text(exp as int)),
                ("iat"@, integer_text(now as int)),
                ("scope"@, json_quoted(scope@)),
                ("cnf"@, object_text(seq![("jkt"@, json_quoted(dpop_jkt@))])),
            ]);
        }
        let header_text = write_object(&header);
        let payload_text = write_object(&claims);
        match sign_compact(header_text.as_str(), payload_text.as_str(), key.secret.as_slice()) {
            Some(token) => Ok(token),
            None => Err(Error::Internal(String::from_str("failed to sign token"))),
        }
    }

    /// Issues a downstream token now, signed with the proxy's key. Whatever
    /// the clock reads, the token is the one that
    /// [`TokenManager::issue_downstream_jwt_at`] issues at that instant; a
    /// key store that fails passes its error on.
    pub fn issue_downstream_jwt<K: KeyStore>(
        &self,
        sub: &str,
        dpop_jkt: &str,
        scope: &str,
        expires_in_seconds: i64,
        key_store: &K,
    ) -> (result: Result<String, Error>)
        ensures
            is_store_failure(result) || (exists|now: i64| #[trigger]
                issued_at(
                    result,
                    self.issuer(),
                    sub@,
                    dpop_jkt@,
                    scope@,
                    expires_in_seconds,
                    now,
                    key_store.signing_secret(),
                )),
            key_store.never_fails() ==> (exists|now: i64| #[trigger]
                issued_at(
                    result,
                    self.issuer(),
                    sub@,
                    dpop_jkt@,
                    scope@,
                    expires_in_seconds,
                    now,
                    key_store.signing_secret(),
                )),
    {
        let key = match key_store.get_signing_key() {
            Ok(k) => k,
            Err(e) => {
                return Err(e);
            },
        };
        let now = unix_now();
        let result = self.issue_downstream_jwt_at(
            sub,
            dpop_jkt,
            scope,
            expires_in_seconds,
            &key,
            now,
        );
        assert(issued_at(
            result,
            self.issuer(),
            sub@,
            dpop_jkt@,
            scope@,
            expires_in_seconds,
            now,
            key_store.signing_secret(),
        ));
        result
    }

    /// Issues a downstream token for a whole-session record: for its user,
    /// bound to its downstream key, with its upstream scope, valid for 24
    /// hours.
    pub fn issue_downstream_access_token<K: KeyStore>(
        &self,
        session: &OAuthSession,
        key_store: &K,
    ) -> (result: Result<String, Error>)
        ensures
            is_store_failure(result) || (exists|now: i64| #[trigger]
                issued_at(
                    result,
                    self.issuer(),
                    session.did@,
                    session.downstream_dpop_key_thumbprint@,
                    session.upstream_scope@,
                    SESSION_TOKEN_LIFETIME_SECONDS,
                    now,
                    key_store.signing_secret(),
                )),
            key_store.never_fails() ==> (exists|now: i64| #[trigger]
                issued_at(
                    result,
                    self.issuer(),
                    session.did@,
                    session.downstream_dpop_key_thumbprint@,
                    session.upstream_scope@,
                    SESSION_TOKEN_LIFETIME_SECONDS,
                    now,
                    key_store.signing_secret(),
                )),
    {
        self.issue_downstream_jwt(
            session.did.as_str(),
            session.downstream_dpop_key_thumbprint.as_str(),
            session.upstream_scope.as_str(),
            SESSION_TOKEN_LIFETIME_SECONDS,
            key_store,
        )
    }

    /// Checks a decoded token against the proxy's key, this issuer and the
    /// time `now`.
    pub fn check_token(&self, token: &DecodedToken, key: &SigningKey, now: i64) -> (result:
        Result<DownstreamTokenClaims, Error>)
        ensures
            reports(result, checking_of(token@, key@, self.issuer(), now)),
    {
        if token.signature.len() != 64 {
            return invalid_request("invalid signature format");
        }
        if !es256_verify(
            key.secret.as_slice(),
            token.signed.as_str().as_bytes(),
            token.signature.as_slice(),
        ) {
            return invalid_request("signature verification failed");
        }
        let claims = match read_claims(token.payload.as_slice()) {
            Some(c) => c,
            None => {
                return invalid_request("invalid claims");
            },
        };
        check_claims(claims, self.issuer.as_str(), now)
    }

    /// Validates a downstream token against `key` at `now`.
    pub fn validate_with_key(&self, jwt: &str, key: &SigningKey, now: i64) -> (result: Result<
        DownstreamTokenClaims,
        Error,
    >)
        ensures
            validated_at(result, jwt@, key@, self.issuer(), now),
    {
        match decode_token(jwt) {
            Ok(token) => self.check_token(&token, key, now),
            Err(e) => Err(e),
        }
    }

    /// Validates a downstream token against the proxy's key, now. Whatever
    /// the clock reads, the result is the one that
    /// [`TokenManager::validate_with_key`] gives at that instant; a key
    /// store that fails passes its error on, once the token has been taken
    /// apart.
    pub fn validate_downstream_jwt<K: KeyStore>(&self, jwt: &str, key_store: &K) -> (result:
        Result<DownstreamTokenClaims, Error>)
        ensures
            (is_store_failure(result) && decoding_of(jwt@) is Ok) || (exists|
                now: i64,
            | #[trigger]
                validated_at(result, jwt@, key_store.signing_secret(), self.issuer(), now)),
            key_store.never_fails() ==> (exists|
                now: i64,
            | #[trigger]
                validated_at(result, jwt@, key_store.signing_secret(), self.issuer(), now)),
    {
        let token = match decode_token(jwt) {
            Ok(t) => t,
            Err(e) => {
                assert(validated_at(
                    Err::<DownstreamTokenClaims, Error>(e),
                    jwt@,
                    key_store.signing_secret(),
                    self.issuer(),
                    0,
                ));
                return Err(e);
            },
        };
        let key = match key_store.get_signing_key() {
            Ok(k) => k,
            Err(e) => {
                return Err(e);
            },
        };
        let now = unix_now();
        let result = self.check_token(&token, &key, now);
        assert(validated_at(result, jwt@, key_store.signing_secret(), self.issuer(), now));
        result
    }
}

} // verus!
