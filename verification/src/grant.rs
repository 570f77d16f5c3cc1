//! The token endpoints: `POST /oauth/token`, which exchanges an
//! authorization code or a refresh token for a downstream access token, and
//! `POST /oauth/revoke`.

use crate::clock::unix_now;
use crate::encoding::{all_base64url, base64url_decoded};
use crate::error::{invalid_request, is_invalid_request, shows_fault, Error, RequestFault};
use crate::json::{
    find_member, integer_text, json_members, json_quoted, lookup, member_views, object_text,
    parse_object, string_member, unsigned_member, write_object,
};
use crate::jwk::{
    check_jwk, compute_jwk_thumbprint, fault_text, thumbprint_of, well_formed_jwk, Jwk,
    ThumbprintOutcome,
};
use crate::jws::decode_part;
use crate::random::{all_base62, generate_random_string};
use crate::server::OAuthProxyServer;
use crate::store::{
    check_did, is_store_failure, valid_did, KeyStore, NonceStore, OAuthSessionStore, StoreState,
    UpstreamSession,
};
use crate::text::{
    compact_parts, join_spaces, joined_by_space, optional_view, same_text, split_compact, text_view,
    views,
};
use crate::token::downstream_jwt;
use vstd::prelude::*;
use vstd::string::*;
use vstd::utf8::encode_utf8;

verus! {

/// The parameters of a token request.
#[derive(Debug)]
pub struct TokenRequest {
    pub grant_type: String,
    pub code: Option<String>,
    pub refresh_token: Option<String>,
    pub client_id: Option<String>,
    pub redirect_uri: Option<String>,
}

/// The answer to a token request, sent with status 200.
#[derive(Debug)]
pub struct TokenResponse {
    pub access_token: String,
    pub token_type: String,
    pub expires_in: u64,
    pub refresh_token: Option<String>,
    pub scope: String,
    pub sub: String,
}

/// What reading the key out of a `DPoP` header comes to.
pub ghost enum DpopKeyOutcome {
    /// The thumbprint of the key, and the key.
    Found(Seq<char>, Seq<(Seq<char>, Seq<char>)>),
    /// There is no header.
    Required,
    /// The header is unusable, for the given reason.
    Invalid(Seq<char>),
}

/// The key that a `DPoP` header presents, and its thumbprint. The header
/// must hold a compact token whose header decodes to a JSON object with a
/// well-formed `jwk` member that has a thumbprint. The proof's signature
/// and claims are not looked at.
pub open spec fn dpop_key_of(header: Option<Seq<char>>) -> DpopKeyOutcome {
    match header {
        None => DpopKeyOutcome::Required,
        Some(proof) => match compact_parts(proof) {
            None => DpopKeyOutcome::Invalid("invalid DPoP proof format"@),
            Some((h, _, _)) => match base64url_decoded(encode_utf8(h)) {
                None => DpopKeyOutcome::Invalid("invalid DPoP header encoding"@),
                Some(bytes) => match json_members(bytes) {
                    None => DpopKeyOutcome::Invalid("invalid DPoP header JSON"@),
                    Some(members) => match lookup(members, "jwk"@) {
                        None => DpopKeyOutcome::Invalid("DPoP proof missing jwk in header"@),
                        Some(key_text) => if !well_formed_jwk(encode_utf8(key_text)) {
                            DpopKeyOutcome::Invalid("invalid JWK"@)
                        } else {
                            match json_members(encode_utf8(key_text)) {
                                None => DpopKeyOutcome::Invalid("invalid JWK"@),
                                Some(jwk) => match thumbprint_of(jwk) {
                                    ThumbprintOutcome::Digest(jkt) => DpopKeyOutcome::Found(
                                        jkt,
                                        jwk,
                                    ),
                                    other => DpopKeyOutcome::Invalid(fault_text(other)),
                                },
                            }
                        },
                    },
                },
            },
        },
    }
}

/// Whether a result shows what reading the key out of a header comes to.
pub open spec fn shows_key(result: Result<(String, Jwk), Error>, outcome: DpopKeyOutcome) -> bool {
    match result {
        Ok((jkt, key)) => outcome == DpopKeyOutcome::Found(jkt@, key@),
        Err(Error::DpopProofRequired) => outcome is Required,
        Err(Error::InvalidRequest(reason)) => outcome == DpopKeyOutcome::Invalid(reason@),
        Err(_) => false,
    }
}

/// Reads the key out of a `DPoP` header and computes its thumbprint.
pub fn extract_dpop_jkt_and_key(dpop_header: Option<&str>) -> (result: Result<(String, Jwk), Error>)
    ensures
        shows_key(result, dpop_key_of(optional_view(dpop_header))),
        result matches Ok((jkt, _)) ==> jkt@.len() == 43 && all_base64url(jkt@),
{
    let proof_text = match dpop_header {
        Some(p) => p,
        None => {
            return Err(Error::DpopProofRequired);
        },
    };
    let (h, _p, _s) = match split_compact(proof_text) {
        Some(parts) => parts,
        None => {
            return invalid_request("invalid DPoP proof format");
        },
    };
    let header = match decode_part(h) {
        Some(bytes) => bytes,
        None => {
            return invalid_request("invalid DPoP header encoding");
        },
    };
    let members = match parse_object(header.as_slice()) {
        Some(m) => m,
        None => {
            return invalid_request("invalid DPoP header JSON");
        },
    };
    let key_text = match find_member(&members, "jwk") {
        Some(t) => t,
        None => {
            return invalid_request("DPoP proof missing jwk in header");
        },
    };
    if !check_jwk(key_text.as_str().as_bytes()) {
        return invalid_request("invalid JWK");
    }
    let jwk = match Jwk::parse(key_text.as_str().as_bytes()) {
        Some(k) => k,
        None => {
            return invalid_request("invalid JWK");
        },
    };
    match compute_jwk_thumbprint(&jwk) {
        Ok(jkt) => Ok((jkt, jwk)),
        Err(e) => Err(e),
    }
}

/// Reads the thumbprint of the key that a `DPoP` header presents.
pub fn extract_dpop_jkt(dpop_header: Option<&str>) -> (result: Result<String, Error>)
    ensures
        match result {
            Ok(jkt) => dpop_key_of(optional_view(dpop_header)) matches DpopKeyOutcome::Found(j, _)
                && j == jkt@,
            Err(Error::DpopProofRequired) => dpop_key_of(optional_view(dpop_header)) is Required,
            Err(Error::InvalidRequest(reason)) => dpop_key_of(optional_view(dpop_header))
                == DpopKeyOutcome::Invalid(reason@),
            Err(_) => false,
        },
        result matches Ok(jkt) ==> jkt@.len() == 43 && all_base64url(jkt@),
{
    match extract_dpop_jkt_and_key(dpop_header) {
        Ok((jkt, _)) => Ok(jkt),
        Err(e) => Err(e),
    }
}

/// The lifetime announced for a token: the configured number of seconds,
/// or none if that is negative.
pub open spec fn announced_lifetime(configured: i64) -> u64 {
    if configured < 0 {
        0
    } else {
        configured as u64
    }
}

/// The scope granted downstream: that of the upstream tokens, or the
/// configured scopes where the upstream server named none.
pub open spec fn granted_scope(session: UpstreamSession, defaults: Seq<Seq<char>>) -> Seq<char> {
    match session.token_set.scope {
        Some(s) => s@,
        None => joined_by_space(defaults),
    }
}

/// What the server is set up with, as far as granting tokens goes.
pub ghost struct GrantSetup {
    /// The private scalar of the proxy's signing key.
    pub secret: Seq<u8>,
    /// The issuer of downstream tokens.
    pub issuer: Seq<char>,
    /// The configured lifetime of downstream tokens, in seconds.
    pub expiry: i64,
    /// The configured scopes.
    pub defaults: Seq<Seq<char>>,
}

/// Whether a response carries a token with the given values.
pub open spec fn is_token_response(
    response: TokenResponse,
    token: Seq<char>,
    expiry: i64,
    refresh: Seq<char>,
    scope: Seq<char>,
    did: Seq<char>,
) -> bool {
    &&& response.access_token@ == token
    &&& response.token_type@ == "DPoP"@
    &&& response.expires_in == announced_lifetime(expiry)
    &&& text_view(response.refresh_token) == Some(refresh)
    &&& response.scope@ == scope
    &&& response.sub@ == did
}

/// What granting tokens for an account's session comes to, with stores
/// that do not fail, from the store `pre` in which the grant has been
/// redeemed. The account must be a DID, the upstream session must exist,
/// and the key must be able to sign. Then a downstream token bound to the
/// client's key is issued, the fresh refresh token is mapped to the account
/// and session in place of the one that was redeemed, the session is stored
/// anew and made the account's active one, and the client's key is indexed.
pub open spec fn tokens_granted(
    pre: StoreState,
    setup: GrantSetup,
    account: (String, String),
    jkt: Seq<char>,
    fresh: Seq<char>,
    redeemed: Option<Seq<char>>,
    now: i64,
    result: Result<TokenResponse, Error>,
    post: StoreState,
) -> bool {
    let did = account.0@;
    let sid = account.1@;
    if !valid_did(did) {
        is_invalid_request(result, "invalid DID"@) && post == pre
    } else {
        match pre.sessions.get((did, sid)) {
            None => result matches Err(Error::SessionNotFound) && post == pre,
            Some(session) => granted_for(
                pre,
                setup,
                account,
                session,
                jkt,
                fresh,
                redeemed,
                now,
                result,
                post,
            ),
        }
    }
}

/// What granting tokens comes to once the upstream session is found.
pub open spec fn granted_for(
    pre: StoreState,
    setup: GrantSetup,
    account: (String, String),
    session: UpstreamSession,
    jkt: Seq<char>,
    fresh: Seq<char>,
    redeemed: Option<Seq<char>>,
    now: i64,
    result: Result<TokenResponse, Error>,
    post: StoreState,
) -> bool {
    let did = account.0@;
    let scope = granted_scope(session, setup.defaults);
    match downstream_jwt(setup.issuer, did, jkt, scope, setup.expiry, now, setup.secret) {
        None => result matches Err(Error::Internal(_)) && post == pre,
        Some(token) => {
            &&& result matches Ok(response) && is_token_response(
                response,
                token,
                setup.expiry,
                fresh,
                scope,
                did,
            )
            &&& post.sessions.contains_key(session.key())
            &&& post.sessions[session.key()].same_as(session)
            &&& post == (StoreState {
                refresh: (match redeemed {
                    Some(old) => pre.refresh.remove(old),
                    None => pre.refresh,
                }).insert(fresh, account),
                sessions: pre.sessions.insert(session.key(), post.sessions[session.key()]),
                active: pre.active.insert(did, account.1),
                jkt_index: pre.jkt_index.insert(jkt, account),
                ..pre
            })
        },
    }
}

/// Why a request is refused for its `DPoP` header, if it is: the header is
/// missing, or no key can be read out of it.
pub open spec fn key_fault(dpop: Option<Seq<char>>) -> Option<RequestFault> {
    match dpop_key_of(dpop) {
        DpopKeyOutcome::Required => Some(RequestFault::ProofRequired),
        DpopKeyOutcome::Invalid(reason) => Some(RequestFault::Invalid(reason)),
        DpopKeyOutcome::Found(_, _) => None,
    }
}

/// Why a token request is refused before any store is asked, if it is. The
/// `DPoP` header is read first; only then does the grant type decide which
/// parameter is needed.
pub open spec fn token_fault(dpop: Option<Seq<char>>, params: TokenRequest) -> Option<
    RequestFault,
> {
    match key_fault(dpop) {
        Some(fault) => Some(fault),
        None => if params.grant_type@ == "authorization_code"@ {
            if params.code is None {
                Some(RequestFault::Invalid("missing code"@))
            } else {
                None
            }
        } else if params.grant_type@ == "refresh_token"@ {
            if params.refresh_token is None {
                Some(RequestFault::Invalid("missing refresh_token"@))
            } else {
                None
            }
        } else {
            Some(RequestFault::UnknownGrant)
        },
    }
}

/// What a token request comes to, with stores that do not fail. A request
/// with a fault is refused and nothing changes. An authorization code is
/// redeemed once: it is taken out of the store whether or not tokens can
/// then be granted. A refresh token is replaced by its successor when
/// tokens are granted.
pub open spec fn token_handled(
    pre: StoreState,
    setup: GrantSetup,
    dpop: Option<Seq<char>>,
    params: TokenRequest,
    fresh: Seq<char>,
    now: i64,
    result: Result<TokenResponse, Error>,
    post: StoreState,
) -> bool {
    match token_fault(dpop, params) {
        Some(fault) => shows_fault(result, fault) && post == pre,
        None => {
            let jkt = dpop_key_of(dpop)->Found_0;
            if params.grant_type@ == "authorization_code"@ {
                let code = params.code->0@;
                let redeemed = StoreState { pending: pre.pending.remove(code), ..pre };
                match pre.pending.get(code) {
                    None => result matches Err(Error::InvalidGrant) && post == redeemed,
                    Some(pending) => tokens_granted(
                        redeemed,
                        setup,
                        (pending.account_did, pending.upstream_session_id),
                        jkt,
                        fresh,
                        None,
                        now,
                        result,
                        post,
                    ),
                }
            } else {
                let token = params.refresh_token->0@;
                match pre.refresh.get(token) {
                    None => result matches Err(Error::InvalidGrant) && post == pre,
                    Some(account) => tokens_granted(
                        pre,
                        setup,
                        account,
                        jkt,
                        fresh,
                        Some(token),
                        now,
                        result,
                        post,
                    ),
                }
            }
        },
    }
}

/// Every token is bound to the key that was presented when it was issued:
/// the access token of a granted request is the downstream token whose
/// `cnf.jkt` claim is the thumbprint of the key in the request's `DPoP`
/// header, for the answered subject and scope.
pub proof fn lemma_issued_token_bound_to_presented_key(
    pre: StoreState,
    setup: GrantSetup,
    dpop: Option<Seq<char>>,
    params: TokenRequest,
    fresh: Seq<char>,
    now: i64,
    result: Result<TokenResponse, Error>,
    post: StoreState,
)
    requires
        token_handled(pre, setup, dpop, params, fresh, now, result, post),
        result is Ok,
    ensures
        dpop_key_of(dpop) matches DpopKeyOutcome::Found(jkt, _) && result matches Ok(response)
            && Some(response.access_token@) == downstream_jwt(
            setup.issuer,
            response.sub@,
            jkt,
            response.scope@,
            setup.expiry,
            now,
            setup.secret,
        ),
{
}

/// An authorization code is redeemed once: after a token request with a
/// readable key redeemed a code, a second such request with the same code
/// is an invalid grant.
pub proof fn lemma_code_single_use(
    pre: StoreState,
    setup: GrantSetup,
    first_dpop: Option<Seq<char>>,
    first: TokenRequest,
    first_fresh: Seq<char>,
    first_now: i64,
    first_result: Result<TokenResponse, Error>,
    between: StoreState,
    later_setup: GrantSetup,
    second_dpop: Option<Seq<char>>,
    second: TokenRequest,
    second_fresh: Seq<char>,
    second_now: i64,
    second_result: Result<TokenResponse, Error>,
    post: StoreState,
)
    requires
        first.grant_type@ == "authorization_code"@,
        second.grant_type@ == "authorization_code"@,
        first.code matches Some(a) && second.code matches Some(b) && a@ == b@,
        dpop_key_of(first_dpop) is Found,
        dpop_key_of(second_dpop) is Found,
        token_handled(
            pre,
            setup,
            first_dpop,
            first,
            first_fresh,
            first_now,
            first_result,
            between,
        ),
        token_handled(
            between,
            later_setup,
            second_dpop,
            second,
            second_fresh,
            second_now,
            second_result,
            post,
        ),
    ensures
        second_result matches Err(Error::InvalidGrant),
{
}

/// A code grants the tokens of its session: after a return stored a
/// pending authorization under a code, a token request that redeems the
/// code with a readable key, for an account that is a DID and with a
/// signing key that can sign, is answered with a token for the returned
/// account, with the fresh refresh token.
pub proof fn lemma_code_grants_session_tokens(
    pre: StoreState,
    issuer: Seq<char>,
    state: Seq<char>,
    session: UpstreamSession,
    code: Seq<char>,
    returned_at: i64,
    redirect: Result<crate::authorize::Redirect, Error>,
    between: StoreState,
    setup: GrantSetup,
    dpop: Option<Seq<char>>,
    params: TokenRequest,
    fresh: Seq<char>,
    now: i64,
    result: Result<TokenResponse, Error>,
    post: StoreState,
)
    requires
        crate::authorize::return_finished(
            pre,
            issuer,
            state,
            Ok(session),
            code,
            returned_at,
            redirect,
            between,
        ),
        redirect is Ok,
        params.grant_type@ == "authorization_code"@,
        params.code matches Some(c) && c@ == code,
        valid_did(session.account_did@),
        dpop_key_of(dpop) matches DpopKeyOutcome::Found(jkt, _) && downstream_jwt(
            setup.issuer,
            session.account_did@,
            jkt,
            granted_scope(session, setup.defaults),
            setup.expiry,
            now,
            setup.secret,
        ) is Some,
        token_handled(between, setup, dpop, params, fresh, now, result, post),
    ensures
        result matches Ok(response) && response.sub@ == session.account_did@ && text_view(
            response.refresh_token,
        ) == Some(fresh) && response.token_type@ == "DPoP"@ && response.scope@ == granted_scope(
            session,
            setup.defaults,
        ),
        !post.pending.contains_key(code),
        post.active.contains_key(session.account_did@) && post.active[session.account_did@]@
            == session.session_id@,
{
}

/// A refresh token is rotated: after a token request was granted for a
/// refresh token and answered with a different one, a second request with
/// the old token is an invalid grant.
pub proof fn lemma_refresh_token_rotated(
    pre: StoreState,
    setup: GrantSetup,
    first_dpop: Option<Seq<char>>,
    first: TokenRequest,
    first_fresh: Seq<char>,
    first_now: i64,
    first_result: Result<TokenResponse, Error>,
    between: StoreState,
    later_setup: GrantSetup,
    second_dpop: Option<Seq<char>>,
    second: TokenRequest,
    second_fresh: Seq<char>,
    second_now: i64,
    second_result: Result<TokenResponse, Error>,
    post: StoreState,
)
    requires
        first.grant_type@ == "refresh_token"@,
        second.grant_type@ == "refresh_token"@,
        first.refresh_token matches Some(a) && second.refresh_token matches Some(b) && a@ == b@
            && a@ != first_fresh,
        first_result is Ok,
        dpop_key_of(second_dpop) is Found,
        token_handled(
            pre,
            setup,
            first_dpop,
            first,
            first_fresh,
            first_now,
            first_result,
            between,
        ),
        token_handled(
            between,
            later_setup,
            second_dpop,
            second,
            second_fresh,
            second_now,
            second_result,
            post,
        ),
    ensures
        second_result matches Err(Error::InvalidGrant),
{
    reveal_strlit("authorization_code");
    reveal_strlit("refresh_token");
    assert("authorization_code"@.len() != "refresh_token"@.len());
}

/// What a revocation comes to, with a store that does not fail: the key of
/// the header must be readable and indexed; then the session it belongs to
/// is deleted, with its key pair and nonce, and the key is no longer
/// indexed.
pub open spec fn revoke_handled(
    pre: StoreState,
    dpop: Option<Seq<char>>,
    result: Result<(), Error>,
    post: StoreState,
) -> bool {
    match key_fault(dpop) {
        Some(fault) => shows_fault(result, fault) && post == pre,
        None => {
            let jkt = dpop_key_of(dpop)->Found_0;
            match pre.jkt_index.get(jkt) {
                None => result matches Err(Error::SessionNotFound) && post == pre,
                Some(account) => result is Ok && post == (StoreState {
                    sessions: pre.sessions.remove((account.0@, account.1@)),
                    dpop_keys: pre.dpop_keys.remove(account.1@),
                    dpop_nonces: pre.dpop_nonces.remove(account.1@),
                    jkt_index: pre.jkt_index.remove(jkt),
                    ..pre
                }),
            }
        },
    }
}

/// Decides how the body of a token request is read: as JSON when the
/// content type names `application/json`, as a form otherwise.
pub fn token_body_format(content_type: Option<&str>) -> (format: crate::par::BodyFormat)
    ensures
        format == (match optional_view(content_type) {
            Some(t) => if crate::text::has_substring(t, "application/json"@) {
                crate::par::BodyFormat::Json
            } else {
                crate::par::BodyFormat::Form
            },
            None => crate::par::BodyFormat::Form,
        }),
{
    match content_type {
        Some(t) => {
            if crate::text::contains_text(t, "application/json") {
                crate::par::BodyFormat::Json
            } else {
                crate::par::BodyFormat::Form
            }
        },
        None => crate::par::BodyFormat::Form,
    }
}

/// The status a revocation is answered with: 204, no content.
pub const REVOKED_STATUS: u16 = 204;

impl TokenResponse {
    /// The status the response is sent with: 200.
    pub fn status_code(&self) -> (status: u16)
        ensures
            status == 200,
    {
        200
    }

    /// The JSON text of the response.
    pub open spec fn json_text(self) -> Seq<char> {
        object_text(
            seq![
                ("access_token"@, json_quoted(self.access_token@)),
                ("token_type"@, json_quoted(self.token_type@)),
                ("expires_in"@, integer_text(self.expires_in as int)),
            ] + (match self.refresh_token {
                Some(t) => seq![("refresh_token"@, json_quoted(t@))],
                None => Seq::empty(),
            }) + seq![("scope"@, json_quoted(self.scope@)), ("sub"@, json_quoted(self.sub@))],
        )
    }

    /// Writes the response as JSON.
    pub fn to_json(&self) -> (text: String)
        ensures
            text@ == self.json_text(),
    {
        let mut members = vec![
            string_member("access_token", self.access_token.as_str()),
            string_member("token_type", self.token_type.as_str()),
            unsigned_member("expires_in", self.expires_in),
        ];
        let ghost head = member_views(members@);
        proof {
            assert(head =~= seq![
                ("access_token"@, json_quoted(self.access_token@)),
                ("token_type"@, json_quoted(self.token_type@)),
                ("expires_in"@, integer_text(self.expires_in as int)),
            ]);
        }
        if let Some(t) = &self.refresh_token {
            members.push(string_member("refresh_token", t.as_str()));
        }
        let ghost middle = member_views(members@);
        proof {
            assert(middle =~= head + (match self.refresh_token {
                Some(t) => seq![("refresh_token"@, json_quoted(t@))],
                None => Seq::empty(),
            }));
        }
        members.push(string_member("scope", self.scope.as_str()));
        members.push(string_member("sub", self.sub.as_str()));
        proof {
            assert(member_views(members@) =~= middle + seq![
                ("scope"@, json_quoted(self.scope@)),
                ("sub"@, json_quoted(self.sub@)),
            ]);
        }
        write_object(&members)
    }
}

impl<S: OAuthSessionStore, K: KeyStore, N: NonceStore> OAuthProxyServer<S, K, N> {
    /// What the server is set up with, as far as granting tokens goes.
    pub open spec fn grant_setup(&self) -> GrantSetup {
        GrantSetup {
            secret: self.key_store.signing_secret(),
            issuer: self.token_manager.issuer(),
            expiry: self.config.downstream_token_expiry_seconds,
            defaults: views(self.config.scope@),
        }
    }

    /// Grants tokens for an account's session: issues the downstream
    /// token, records the fresh refresh token in place of the redeemed
    /// one, stores the session anew, makes it the active one and indexes
    /// the client's key.
    fn grant_tokens(
        &mut self,
        account: (String, String),
        jkt: String,
        fresh: &str,
        redeemed: Option<&str>,
        now: i64,
    ) -> (result: Result<TokenResponse, Error>)
        ensures
            final(self).config == old(self).config,
            final(self).key_store == old(self).key_store,
            final(self).nonce_store == old(self).nonce_store,
            final(self).token_manager == old(self).token_manager,
            final(self).session_store.never_fails() == old(self).session_store.never_fails(),
            old(self).session_store.never_fails() && old(self).key_store.never_fails()
                ==> tokens_granted(
                old(self).session_store.state(),
                old(self).grant_setup(),
                account,
                jkt@,
                fresh@,
                optional_view(redeemed),
                now,
                result,
                final(self).session_store.state(),
            ),
            is_store_failure(result) || (tokens_granted(
                old(self).session_store.state(),
                old(self).grant_setup(),
                account,
                jkt@,
                fresh@,
                optional_view(redeemed),
                now,
                result,
                final(self).session_store.state(),
            )),
    {
        if !check_did(account.0.as_str()) {
            return invalid_request("invalid DID");
        }
        let found = match self.session_store.get_oauth_session(
            account.0.as_str(),
            account.1.as_str(),
        ) {
            Ok(f) => f,
            Err(e) => {
                return Err(e);
            },
        };
        let session = match found {
            Some(s) => s,
            None => {
                return Err(Error::SessionNotFound);
            },
        };
        let scope = match &session.token_set.scope {
            Some(s) => s.clone(),
            None => join_spaces(&self.config.scope),
        };
        let key = match self.key_store.get_signing_key() {
            Ok(k) => k,
            Err(e) => {
                return Err(e);
            },
        };
        let expiry = self.config.downstream_token_expiry_seconds;
        let access_token = match self.token_manager.issue_downstream_jwt_at(
            account.0.as_str(),
            jkt.as_str(),
            scope.as_str(),
            expiry,
            &key,
            now,
        ) {
            Ok(t) => t,
            Err(e) => {
                return Err(e);
            },
        };
        let did = account.0.clone();
        let sid = account.1.clone();
        let stored = match redeemed {
            Some(old_token) => self.session_store.rotate_refresh_token_mapping(
                old_token,
                fresh,
                did,
                sid,
            ),
            None => self.session_store.store_refresh_token_mapping(fresh, did, sid),
        };
        match stored {
            Ok(()) => {},
            Err(e) => {
                return Err(e);
            },
        }
        match self.session_store.upsert_oauth_session(session) {
            Ok(()) => {},
            Err(e) => {
                return Err(e);
            },
        }
        match self.session_store.store_active_session(account.0.as_str(), account.1.clone()) {
            Ok(()) => {},
            Err(e) => {
                return Err(e);
            },
        }
        let sub = account.0.clone();
        match self.session_store.bind_dpop_jkt(jkt.as_str(), account.0, account.1) {
            Ok(()) => {},
            Err(e) => {
                return Err(e);
            },
        }
        let expires_in: u64 = if expiry < 0 {
            0
        } else {
            expiry as u64
        };
        Ok(
            TokenResponse {
                access_token,
                token_type: String::from_str("DPoP"),
                expires_in,
                refresh_token: Some(String::from_str(fresh)),
                scope,
                sub,
            },
        )
    }

    /// Handles a token request at `now`, with `fresh` as the refresh token
    /// to hand out. The key of the `DPoP` header is read first, then the
    /// grant type decides. What is refused before a store is asked is
    /// refused whatever the stores do.
    pub fn handle_token_at(
        &mut self,
        dpop_header: Option<&str>,
        params: TokenRequest,
        fresh: &str,
        now: i64,
    ) -> (result: Result<TokenResponse, Error>)
        ensures
            final(self).config == old(self).config,
            final(self).key_store == old(self).key_store,
            final(self).nonce_store == old(self).nonce_store,
            final(self).token_manager == old(self).token_manager,
            final(self).session_store.never_fails() == old(self).session_store.never_fails(),
            old(self).session_store.never_fails() && old(self).key_store.never_fails()
                ==> token_handled(
                old(self).session_store.state(),
                old(self).grant_setup(),
                optional_view(dpop_header),
                params,
                fresh@,
                now,
                result,
                final(self).session_store.state(),
            ),
            is_store_failure(result) || (token_handled(
                old(self).session_store.state(),
                old(self).grant_setup(),
                optional_view(dpop_header),
                params,
                fresh@,
                now,
                result,
                final(self).session_store.state(),
            )),
            token_fault(optional_view(dpop_header), params) matches Some(fault) ==> shows_fault(
                result,
                fault,
            ) && final(self).session_store == old(self).session_store,
    {
        let jkt = match extract_dpop_jkt(dpop_header) {
            Ok(j) => j,
            Err(e) => {
                return Err(e);
            },
        };
        if same_text(params.grant_type.as_str(), "authorization_code") {
            let code = match params.code {
                Some(c) => c,
                None => {
                    return invalid_request("missing code");
                },
            };
            let found = match self.session_store.consume_pending_auth(code.as_str()) {
                Ok(f) => f,
                Err(e) => {
                    return Err(e);
                },
            };
            let pending = match found {
                Some(p) => p,
                None => {
                    return Err(Error::InvalidGrant);
                },
            };
            self.grant_tokens(
                (pending.account_did, pending.upstream_session_id),
                jkt,
                fresh,
                None,
                now,
            )
        } else if same_text(params.grant_type.as_str(), "refresh_token") {
            let token = match params.refresh_token {
                Some(t) => t,
                None => {
                    return invalid_request("missing refresh_token");
                },
            };
            let found = match self.session_store.get_refresh_token_mapping(token.as_str()) {
                Ok(f) => f,
                Err(e) => {
                    return Err(e);
                },
            };
            let account = match found {
                Some(a) => a,
                None => {
                    return Err(Error::InvalidGrant);
                },
            };
            self.grant_tokens(account, jkt, fresh, Some(token.as_str()), now)
        } else {
            Err(Error::InvalidGrant)
        }
    }

    /// Handles a token request now, with a fresh random refresh token of
    /// 64 characters. Whatever the clock reads and whatever is drawn, the
    /// result is the one that [`OAuthProxyServer::handle_token_at`] gives
    /// for them.
    pub fn handle_token(&mut self, dpop_header: Option<&str>, params: TokenRequest) -> (result:
        Result<TokenResponse, Error>)
        ensures
            final(self).config == old(self).config,
            final(self).key_store == old(self).key_store,
            final(self).nonce_store == old(self).nonce_store,
            final(self).token_manager == old(self).token_manager,
            final(self).session_store.never_fails() == old(self).session_store.never_fails(),
            old(self).session_store.never_fails() && old(self).key_store.never_fails()
                ==> exists|fresh: Seq<char>, now: i64|
                fresh.len() == 64 && all_base62(fresh) && #[trigger] token_handled(
                    old(self).session_store.state(),
                    old(self).grant_setup(),
                    optional_view(dpop_header),
                    params,
                    fresh,
                    now,
                    result,
                    final(self).session_store.state(),
                ),
            is_store_failure(result) || (exists|fresh: Seq<char>, now: i64|
                fresh.len() == 64 && all_base62(fresh) && #[trigger] token_handled(
                    old(self).session_store.state(),
                    old(self).grant_setup(),
                    optional_view(dpop_header),
                    params,
                    fresh,
                    now,
                    result,
                    final(self).session_store.state(),
                )),
            token_fault(optional_view(dpop_header), params) matches Some(fault) ==> shows_fault(
                result,
                fault,
            ) && final(self).session_store == old(self).session_store,
    {
        let fresh = generate_random_string(64);
        let now = unix_now();
        let result = self.handle_token_at(dpop_header, params, fresh.as_str(), now);
        proof {
            if old(self).session_store.never_fails() && old(self).key_store.never_fails() {
                assert(token_handled(
                    old(self).session_store.state(),
                    old(self).grant_setup(),
                    optional_view(dpop_header),
                    params,
                    fresh@,
                    now,
                    result,
                    self.session_store.state(),
                ));
            }
        }
        result
    }

    /// Handles a revocation: deletes the session that the key of the
    /// `DPoP` header was last issued tokens for. Answered with status 204.
    pub fn handle_revoke(&mut self, dpop_header: Option<&str>) -> (result: Result<(), Error>)
        ensures
            final(self).config == old(self).config,
            final(self).key_store == old(self).key_store,
            final(self).nonce_store == old(self).nonce_store,
            final(self).session_store.never_fails() == old(self).session_store.never_fails(),
            old(self).session_store.never_fails() ==> revoke_handled(
                old(self).session_store.state(),
                optional_view(dpop_header),
                result,
                final(self).session_store.state(),
            ),
            is_store_failure(result) || (revoke_handled(
                old(self).session_store.state(),
                optional_view(dpop_header),
                result,
                final(self).session_store.state(),
            )),
            key_fault(optional_view(dpop_header)) matches Some(fault) ==> shows_fault(
                result,
                fault,
            ) && final(self).session_store == old(self).session_store,
    {
        let jkt = match extract_dpop_jkt(dpop_header) {
            Ok(j) => j,
            Err(e) => {
                return Err(e);
            },
        };
        let found = match self.session_store.get_by_dpop_jkt(jkt.as_str()) {
            Ok(f) => f,
            Err(e) => {
                return Err(e);
            },
        };
        let account = match found {
            Some(a) => a,
            None => {
                return Err(Error::SessionNotFound);
            },
        };
        match self.session_store.delete_oauth_session(account.0.as_str(), account.1.as_str()) {
            Ok(()) => {},
            Err(e) => {
                return Err(e);
            },
        }
        self.session_store.unbind_dpop_jkt(jkt.as_str())
    }
}

} // verus!
