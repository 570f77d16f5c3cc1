//! Authenticated request forwarding: `ANY /xrpc/*`.
//!
//! A request is forwarded in steps. The first step authenticates the
//! client and finds the upstream session. Then, for each attempt, a request
//! with a fresh proof of possession is built, the caller sends it, and the
//! response decides whether the request is sent once more with the nonce
//! that the upstream server asked for.

use crate::auth::{access_token_of, extract_access_token};
use crate::clock::unix_now;
use crate::error::{invalid_request, is_invalid_request, Error};
use crate::grant::{dpop_key_of, extract_dpop_jkt, DpopKeyOutcome};
use crate::jwk::Jwk;
use crate::random::{all_base62, generate_random_string};
use crate::server::OAuthProxyServer;
use crate::signing::{sign_proof, signed_proof};
use crate::store::{
    check_did, is_store_failure, valid_did, KeyStore, NonceStore, OAuthSessionStore, StoreState,
};
use crate::text::{
    optional_view, same_text, text_view, trim_end_matches, trim_start_matches, without_leading,
    without_trailing,
};
use crate::token::{decode_token, decoding_of, validation_of};
use vstd::prelude::*;
use vstd::string::*;

verus! {

/// How often a request is sent again after a nonce challenge.
pub const MAX_NONCE_RETRIES: u8 = 1;

/// What is known of a request while it is being forwarded.
pub struct ForwardState {
    pub session_id: String,
    pub upstream_url: String,
    pub method: String,
    /// The upstream access token.
    pub access_token: String,
    /// The session's key pair for upstream calls.
    pub dpop_key: Jwk,
    /// The nonce to put into the next proof, if any is known.
    pub nonce: Option<String>,
    pub retries_left: u8,
}

/// What the caller sends to the upstream server, besides the inbound
/// headers that are passed on and the inbound body.
#[derive(Debug)]
pub struct UpstreamRequest {
    pub method: String,
    pub url: String,
    /// Value of the `Authorization` header.
    pub authorization: String,
    /// Value of the `DPoP` header.
    pub dpop: String,
}

/// What follows an upstream response.
pub enum ForwardStep {
    /// The request is to be sent again, with this state.
    Retry(ForwardState),
    /// The response is to be passed on to the client.
    Done,
}

/// The upstream URL of a request: the session's host, a slash, and the
/// inbound path and query, without doubled slashes between them.
pub open spec fn upstream_url_of(host: Seq<char>, path_and_query: Seq<char>) -> Seq<char> {
    without_trailing(host, '/') + "/"@ + without_leading(path_and_query, '/')
}

/// Whether an inbound header, named in lower case, is passed on upstream:
/// all are, but `host`, `authorization` and `dpop`.
pub open spec fn passes_upstream(name: Seq<char>) -> bool {
    name != "host"@ && name != "authorization"@ && name != "dpop"@
}

/// Whether an upstream response header, named in lower case, is passed on
/// to the client: all are, but `transfer-encoding`.
pub open spec fn passes_downstream(name: Seq<char>) -> bool {
    name != "transfer-encoding"@
}

/// The status with which a failure of this route is answered: 502 for a
/// network error, the error's own status otherwise.
pub open spec fn route_status_of(error: Error) -> u16 {
    match error {
        Error::NetworkError(_) => 502,
        _ => error.status_of(),
    }
}

/// Whether a forwarding state is the one for a session, its key and its
/// nonce.
pub open spec fn forwards_for(
    state: ForwardState,
    session_id: String,
    host: Seq<char>,
    access_token: String,
    key: Jwk,
    nonce: Option<String>,
    method: Seq<char>,
    path_and_query: Seq<char>,
) -> bool {
    &&& state.session_id == session_id
    &&& state.upstream_url@ == upstream_url_of(host, path_and_query)
    &&& state.method@ == method
    &&& state.access_token == access_token
    &&& state.dpop_key@ == key@
    &&& state.nonce == nonce
    &&& state.retries_left == MAX_NONCE_RETRIES
}

/// Whether a request is refused as unauthorized before any store is asked:
/// it has no `Authorization` header, the header holds no token under the
/// scheme `DPoP` or `Bearer`, or the token cannot be taken apart.
pub open spec fn unauthenticated(authorization: Option<Seq<char>>) -> bool {
    match authorization {
        None => true,
        Some(header) => match access_token_of(header) {
            None => true,
            Some(token) => decoding_of(token) is Err,
        },
    }
}

/// What beginning to forward comes to, with stores that do not fail. The
/// request must carry a valid downstream token under the scheme `DPoP` or
/// `Bearer`, else it is unauthorized; its `DPoP` header must present the
/// key that the token is bound to, else the request is invalid; the
/// account must be a DID and have an active session with a stored key
/// pair.
pub open spec fn forward_begun(
    store: StoreState,
    secret: Seq<u8>,
    issuer: Seq<char>,
    authorization: Option<Seq<char>>,
    dpop: Option<Seq<char>>,
    method: Seq<char>,
    path_and_query: Seq<char>,
    now: i64,
    result: Result<ForwardState, Error>,
) -> bool {
    match authorization {
        None => result matches Err(Error::Unauthorized),
        Some(header) => match access_token_of(header) {
            None => result matches Err(Error::Unauthorized),
            Some(token) => match validation_of(token, secret, issuer, now) {
                Err(_) => result matches Err(Error::Unauthorized),
                Ok(claims) => match dpop_key_of(dpop) {
                    DpopKeyOutcome::Required => result matches Err(Error::DpopProofRequired),
                    DpopKeyOutcome::Invalid(_) => result matches Err(Error::Unauthorized),
                    DpopKeyOutcome::Found(jkt, _) => if jkt != claims.jkt {
                        is_invalid_request(result, "DPoP key mismatch"@)
                    } else {
                        session_found(store, claims.sub, method, path_and_query, result)
                    },
                },
            },
        },
    }
}

/// What finding the upstream session of an authenticated account comes
/// to: the account must have an active session, be a DID, and the session
/// must exist and have a stored key pair.
pub open spec fn session_found(
    store: StoreState,
    account: Seq<char>,
    method: Seq<char>,
    path_and_query: Seq<char>,
    result: Result<ForwardState, Error>,
) -> bool {
    match store.active.get(account) {
        None => result matches Err(Error::SessionNotFound),
        Some(sid) => if !valid_did(account) {
            is_invalid_request(result, "invalid DID"@)
        } else {
            match store.sessions.get((account, sid@)) {
                None => result matches Err(Error::SessionNotFound),
                Some(session) => match store.dpop_keys.get(sid@) {
                    None => is_invalid_request(result, "DPoP key not found for session"@),
                    Some(entry) => result matches Ok(state) && forwards_for(
                        state,
                        sid,
                        session.host_url@,
                        session.token_set.access_token,
                        entry.1,
                        store.dpop_nonces.get(sid@),
                        method,
                        path_and_query,
                    ),
                },
            }
        },
    }
}

/// Whether a request is the one for a forwarding state and a proof.
pub open spec fn is_upstream_request(request: UpstreamRequest, state: ForwardState, dpop: Seq<char>)
    -> bool {
    &&& request.method == state.method
    &&& request.url == state.upstream_url
    &&& request.authorization@ == "DPoP "@ + state.access_token@
    &&& request.dpop@ == dpop
}

/// What building the upstream request comes to: a request with a proof
/// for the method and URL, bound to the upstream access token and carrying
/// the state's nonce; or an invalid request when the key cannot sign.
pub open spec fn request_built(
    state: ForwardState,
    jti: Seq<char>,
    now: i64,
    result: Result<UpstreamRequest, Error>,
) -> bool {
    match signed_proof(
        state.dpop_key@,
        state.method@,
        state.upstream_url@,
        Some(state.access_token@),
        text_view(state.nonce),
        jti,
        now,
    ) {
        Some(dpop) => result matches Ok(request) && is_upstream_request(request, state, dpop),
        None => result matches Err(Error::InvalidRequest(_)),
    }
}

/// Whether a response is a nonce challenge that is answered by sending
/// the request again: status 400 or 401, a nonce, and a retry left.
pub open spec fn is_challenge(state: ForwardState, status: u16, nonce: Option<Seq<char>>) -> bool {
    (status == 400 || status == 401) && nonce is Some && state.retries_left > 0
}

/// What an upstream response comes to, with a store that does not fail. A
/// nonce that the response carries is stored for the session. After a
/// challenge, the request is sent again with that nonce and one retry
/// less; any other response is passed on.
pub open spec fn response_handled(
    pre: StoreState,
    state: ForwardState,
    status: u16,
    nonce: Option<Seq<char>>,
    result: Result<ForwardStep, Error>,
    post: StoreState,
) -> bool {
    let sid = state.session_id@;
    match nonce {
        None => result matches Ok(ForwardStep::Done) && post == pre,
        Some(n) => {
            &&& post.dpop_nonces.contains_key(sid)
            &&& post.dpop_nonces[sid]@ == n
            &&& post == (StoreState {
                dpop_nonces: pre.dpop_nonces.insert(sid, post.dpop_nonces[sid]),
                ..pre
            })
            &&& if is_challenge(state, status, nonce) {
                result matches Ok(ForwardStep::Retry(next)) && text_view(next.nonce) == Some(n)
                    && next.retries_left == state.retries_left - 1 && next.session_id
                    == state.session_id && next.upstream_url == state.upstream_url && next.method
                    == state.method && next.access_token == state.access_token && next.dpop_key
                    == state.dpop_key
            } else {
                result matches Ok(ForwardStep::Done)
            }
        },
    }
}

/// A nonce that the upstream server sent is used next: after a response
/// with a nonce was handled, the next forwarding for the same session
/// begins with that nonce, and so does a retry.
pub proof fn lemma_nonce_carried(
    pre: StoreState,
    state: ForwardState,
    status: u16,
    nonce: Seq<char>,
    result: Result<ForwardStep, Error>,
    post: StoreState,
    secret: Seq<u8>,
    issuer: Seq<char>,
    authorization: Option<Seq<char>>,
    dpop: Option<Seq<char>>,
    method: Seq<char>,
    path_and_query: Seq<char>,
    now: i64,
    next: Result<ForwardState, Error>,
)
    requires
        response_handled(pre, state, status, Some(nonce), result, post),
        forward_begun(post, secret, issuer, authorization, dpop, method, path_and_query, now, next),
        next matches Ok(begun) && begun.session_id@ == state.session_id@,
    ensures
        next matches Ok(begun) && text_view(begun.nonce) == Some(nonce),
        result matches Ok(ForwardStep::Retry(again)) ==> text_view(again.nonce) == Some(nonce),
{
}

/// A token is honoured only with the key it is bound to: a request whose
/// token is valid but whose `DPoP` header presents a key with another
/// thumbprint than the token's `cnf.jkt` is refused as an invalid request,
/// with status 400.
pub proof fn lemma_token_bound_to_key(
    store: StoreState,
    secret: Seq<u8>,
    issuer: Seq<char>,
    header: Seq<char>,
    dpop: Option<Seq<char>>,
    method: Seq<char>,
    path_and_query: Seq<char>,
    now: i64,
    result: Result<ForwardState, Error>,
)
    requires
        forward_begun(
            store,
            secret,
            issuer,
            Some(header),
            dpop,
            method,
            path_and_query,
            now,
            result,
        ),
        access_token_of(header) matches Some(token) && validation_of(token, secret, issuer, now)
            matches Ok(claims) && dpop_key_of(dpop) matches DpopKeyOutcome::Found(jkt, _) && jkt
            != claims.jkt,
    ensures
        is_invalid_request(result, "DPoP key mismatch"@),
        result matches Err(e) && e.status_of() == 400,
{
}

/// Joins the session's host and the inbound path and query.
pub fn build_upstream_url(host: &str, path_and_query: &str) -> (url: String)
    ensures
        url@ == upstream_url_of(host@, path_and_query@),
{
    let base = trim_end_matches(host, '/');
    let path = trim_start_matches(path_and_query, '/');
    String::from_str(base).concat("/").concat(path)
}

/// Whether an inbound header, named in lower case, is passed on upstream.
pub fn forwards_request_header(name: &str) -> (passed: bool)
    ensures
        passed == passes_upstream(name@),
{
    !same_text(name, "host") && !same_text(name, "authorization") && !same_text(name, "dpop")
}

/// Whether an upstream response header, named in lower case, is passed on
/// to the client.
pub fn forwards_response_header(name: &str) -> (passed: bool)
    ensures
        passed == passes_downstream(name@),
{
    !same_text(name, "transfer-encoding")
}

/// The status with which a failure of this route is answered.
pub fn route_status(error: &Error) -> (status: u16)
    ensures
        status == route_status_of(*error),
{
    match error {
        Error::NetworkError(_) => 502,
        _ => error.status_code(),
    }
}

/// Builds the upstream request for one attempt, with `jti` as the proof's
/// identifier, at `now`.
pub fn build_upstream_request_at(state: &ForwardState, jti: &str, now: i64) -> (result: Result<
    UpstreamRequest,
    Error,
>)
    ensures
        request_built(*state, jti@, now, result),
{
    let nonce = crate::text::borrowed(&state.nonce);
    let dpop = match sign_proof(
        &state.dpop_key,
        state.method.as_str(),
        state.upstream_url.as_str(),
        Some(state.access_token.as_str()),
        nonce,
        jti,
        now,
    ) {
        Ok(p) => p,
        Err(e) => {
            return Err(e);
        },
    };
    Ok(
        UpstreamRequest {
            method: state.method.clone(),
            url: state.upstream_url.clone(),
            authorization: String::from_str("DPoP ").concat(state.access_token.as_str()),
            dpop,
        },
    )
}

/// Builds the upstream request for one attempt, now, with a fresh random
/// proof identifier. Whatever the clock reads and whatever is drawn, the
/// result is the one that [`build_upstream_request_at`] gives for them.
pub fn build_upstream_request(state: &ForwardState) -> (result: Result<UpstreamRequest, Error>)
    ensures
        exists|jti: Seq<char>, now: i64|
            jti.len() == 32 && all_base62(jti) && #[trigger] request_built(
                *state,
                jti,
                now,
                result,
            ),
{
    let jti = generate_random_string(32);
    let now = unix_now();
    let result = build_upstream_request_at(state, jti.as_str(), now);
    assert(request_built(*state, jti@, now, result));
    result
}

impl<S: OAuthSessionStore, K: KeyStore, N: NonceStore> OAuthProxyServer<S, K, N> {
    /// Begins to forward a request at `now`: authenticates the client and
    /// finds the upstream session, its key pair and its nonce. A request
    /// without a token that can be taken apart is unauthorized whatever
    /// the stores do.
    pub fn begin_forward_at(
        &self,
        authorization: Option<&str>,
        dpop_header: Option<&str>,
        method: &str,
        path_and_query: &str,
        now: i64,
    ) -> (result: Result<ForwardState, Error>)
        ensures
            self.session_store.never_fails() && self.key_store.never_fails() ==> forward_begun(
                self.session_store.state(),
                self.key_store.signing_secret(),
                self.token_manager.issuer(),
                optional_view(authorization),
                optional_view(dpop_header),
                method@,
                path_and_query@,
                now,
                result,
            ),
            is_store_failure(result) || (forward_begun(
                self.session_store.state(),
                self.key_store.signing_secret(),
                self.token_manager.issuer(),
                optional_view(authorization),
                optional_view(dpop_header),
                method@,
                path_and_query@,
                now,
                result,
            )),
            unauthenticated(optional_view(authorization)) ==> result matches Err(
                Error::Unauthorized,
            ),
    {
        let header = match authorization {
            Some(h) => h,
            None => {
                return Err(Error::Unauthorized);
            },
        };
        let token = match extract_access_token(header) {
            Some(t) => t,
            None => {
                return Err(Error::Unauthorized);
            },
        };
        let decoded = match decode_token(token) {
            Ok(d) => d,
            Err(_) => {
                return Err(Error::Unauthorized);
            },
        };
        let key = match self.key_store.get_signing_key() {
            Ok(k) => k,
            Err(e) => {
                return Err(e);
            },
        };
        let claims = match self.token_manager.check_token(&decoded, &key, now) {
            Ok(c) => c,
            Err(_) => {
                return Err(Error::Unauthorized);
            },
        };
        let jkt = match extract_dpop_jkt(dpop_header) {
            Ok(j) => j,
            Err(Error::DpopProofRequired) => {
                return Err(Error::DpopProofRequired);
            },
            Err(_) => {
                return Err(Error::Unauthorized);
            },
        };
        if !same_text(jkt.as_str(), claims.cnf.jkt.as_str()) {
            return invalid_request("DPoP key mismatch");
        }
        let session_id = match self.session_store.get_active_session(claims.sub.as_str()) {
            Ok(Some(sid)) => sid,
            Ok(None) => {
                return Err(Error::SessionNotFound);
            },
            Err(e) => {
                return Err(e);
            },
        };
        if !check_did(claims.sub.as_str()) {
            return invalid_request("invalid DID");
        }
        let session = match self.session_store.get_oauth_session(
            claims.sub.as_str(),
            session_id.as_str(),
        ) {
            Ok(Some(s)) => s,
            Ok(None) => {
                return Err(Error::SessionNotFound);
            },
            Err(e) => {
                return Err(e);
            },
        };
        let dpop_key = match self.session_store.get_session_dpop_key(session_id.as_str()) {
            Ok(Some(entry)) => entry.1,
            Ok(None) => {
                return invalid_request("DPoP key not found for session");
            },
            Err(e) => {
                return Err(e);
            },
        };
        let nonce = match self.session_store.get_session_dpop_nonce(session_id.as_str()) {
            Ok(n) => n,
            Err(e) => {
                return Err(e);
            },
        };
        Ok(
            ForwardState {
                session_id,
                upstream_url: build_upstream_url(session.host_url.as_str(), path_and_query),
                method: String::from_str(method),
                access_token: session.token_set.access_token,
                dpop_key,
                nonce,
                retries_left: MAX_NONCE_RETRIES,
            },
        )
    }

    /// Begins to forward a request, now. Whatever the clock reads, the
    /// result is the one that [`OAuthProxyServer::begin_forward_at`] gives
    /// at that instant.
    pub fn handle_xrpc_proxy(
        &self,
        authorization: Option<&str>,
        dpop_header: Option<&str>,
        method: &str,
        path_and_query: &str,
    ) -> (result: Result<ForwardState, Error>)
        ensures
            self.session_store.never_fails() && self.key_store.never_fails() ==> exists|now: i64|
             #[trigger]
                forward_begun(
                    self.session_store.state(),
                    self.key_store.signing_secret(),
                    self.token_manager.issuer(),
                    optional_view(authorization),
                    optional_view(dpop_header),
                    method@,
                    path_and_query@,
                    now,
                    result,
                ),
            is_store_failure(result) || (exists|now: i64|
             #[trigger]
                forward_begun(
                    self.session_store.state(),
                    self.key_store.signing_secret(),
                    self.token_manager.issuer(),
                    optional_view(authorization),
                    optional_view(dpop_header),
                    method@,
                    path_and_query@,
                    now,
                    result,
                )),
            unauthenticated(optional_view(authorization)) ==> result matches Err(
                Error::Unauthorized,
            ),
    {
        let now = unix_now();
        let result = self.begin_forward_at(authorization, dpop_header, method, path_and_query, now);
        proof {
            if self.session_store.never_fails() && self.key_store.never_fails() {
                assert(forward_begun(
                    self.session_store.state(),
                    self.key_store.signing_secret(),
                    self.token_manager.issuer(),
                    optional_view(authorization),
                    optional_view(dpop_header),
                    method@,
                    path_and_query@,
                    now,
                    result,
                ));
            }
        }
        result
    }

    /// Takes an upstream response: its status and its `DPoP-Nonce` header,
    /// if it has one. Stores the nonce, and decides whether the request is
    /// sent again. A store that fails stops a retry, and is passed over
    /// when the response is passed on.
    pub fn handle_upstream_response(
        &mut self,
        state: ForwardState,
        status: u16,
        dpop_nonce: Option<&str>,
    ) -> (result: Result<ForwardStep, Error>)
        ensures
            final(self).config == old(self).config,
            final(self).key_store == old(self).key_store,
            final(self).nonce_store == old(self).nonce_store,
            final(self).session_store.never_fails() == old(self).session_store.never_fails(),
            old(self).session_store.never_fails() ==> response_handled(
                old(self).session_store.state(),
                state,
                status,
                optional_view(dpop_nonce),
                result,
                final(self).session_store.state(),
            ),
            is_store_failure(result) || response_handled(
                old(self).session_store.state(),
                state,
                status,
                optional_view(dpop_nonce),
                result,
                final(self).session_store.state(),
            ) || (result matches Ok(ForwardStep::Done) && final(self).session_store.state()
                == old(self).session_store.state()),
            dpop_nonce is None || !is_challenge(state, status, optional_view(dpop_nonce))
                ==> result matches Ok(ForwardStep::Done),
            dpop_nonce is None ==> final(self).session_store == old(self).session_store,
    {
        let nonce = match dpop_nonce {
            Some(n) => n,
            None => {
                return Ok(ForwardStep::Done);
            },
        };
        let stored = self.session_store.update_session_dpop_nonce(
            state.session_id.as_str(),
            String::from_str(nonce),
        );
        if (status == 400 || status == 401) && state.retries_left > 0 {
            match stored {
                Ok(()) => {},
                Err(e) => {
                    return Err(e);
                },
            }
            let mut next = state;
            next.nonce = Some(String::from_str(nonce));
            next.retries_left = next.retries_left - 1;
            Ok(ForwardStep::Retry(next))
        } else {
            Ok(ForwardStep::Done)
        }
    }
}

} // verus!
