//! Refreshing upstream tokens before they expire.
//!
//! The exchange with the upstream token endpoint is the caller's: the
//! token manager decides whether a refresh is due and what to send, and
//! takes the endpoint's answer.

use crate::clock::{add_seconds, later, unix_now};
use crate::error::Error;
use crate::jwk::Jwk;
use crate::random::{all_base62, generate_random_string};
use crate::signing::{proof_signed, sign_proof, signed_proof};
use crate::store::{is_store_failure, OAuthSessionStore, StoreState, TokenSet, UpstreamSession};
use crate::text::{borrowed, optional_view, text_view};
use crate::token::TokenManager;
use vstd::prelude::*;
use vstd::string::*;

verus! {

/// Seconds before expiry from which an upstream token is refreshed.
pub const REFRESH_BUFFER_SECONDS: i64 = 300;

/// Lifetime assumed for upstream tokens whose lifetime is not announced.
pub const DEFAULT_UPSTREAM_LIFETIME_SECONDS: i64 = 3600;

/// What to send to the upstream token endpoint: a form with the grant type
/// `refresh_token` and the refresh token, under a `DPoP` header.
#[derive(Debug)]
pub struct RefreshRequest {
    /// The token endpoint.
    pub url: String,
    /// Value of the form field `grant_type`.
    pub grant_type: String,
    /// Value of the `DPoP` header.
    pub dpop: String,
    /// Value of the form field `refresh_token`.
    pub refresh_token: String,
}

/// Whether an upstream session needs new tokens.
#[derive(Debug)]
pub enum RefreshStep {
    /// The tokens are good for more than five minutes.
    Fresh,
    /// The tokens are to be refreshed with this request.
    Request(RefreshRequest),
}

/// The upstream token endpoint's answer, with the nonce of its
/// `DPoP-Nonce` header, if it sent one.
#[derive(Debug)]
pub struct RefreshResponse {
    pub access_token: String,
    pub refresh_token: Option<String>,
    pub scope: Option<String>,
    pub expires_in: Option<i64>,
    pub dpop_nonce: Option<String>,
}

/// Whether tokens that expire at `expires_at` are good for more than five
/// minutes at `now`. Tokens without a known expiry are not.
pub open spec fn is_fresh(expires_at: Option<i64>, now: i64) -> bool {
    match expires_at {
        Some(t) => t > now + REFRESH_BUFFER_SECONDS,
        None => false,
    }
}

/// The token endpoint of an upstream server.
pub open spec fn token_endpoint_of(host: Seq<char>) -> Seq<char> {
    host + "/oauth/token"@
}

/// What deciding on a refresh comes to: nothing to do while the tokens are
/// fresh; an expired session when there is no refresh token; otherwise a
/// request to the token endpoint whose proof is for a `POST` to that
/// endpoint, without access-token hash, with the nonce last seen.
pub open spec fn refresh_decided(
    session: UpstreamSession,
    key: Seq<(Seq<char>, Seq<char>)>,
    nonce: Option<Seq<char>>,
    jti: Seq<char>,
    now: i64,
    result: Result<RefreshStep, Error>,
) -> bool {
    if is_fresh(session.token_set.expires_at, now) {
        result matches Ok(RefreshStep::Fresh)
    } else {
        match session.token_set.refresh_token {
            None => result matches Err(Error::SessionExpired),
            Some(token) => match signed_proof(
                key,
                "POST"@,
                token_endpoint_of(session.host_url@),
                None,
                nonce,
                jti,
                now,
            ) {
                Some(dpop) => result matches Ok(RefreshStep::Request(request)) && request.url@
                    == token_endpoint_of(session.host_url@) && request.grant_type@
                    == "refresh_token"@ && request.dpop@ == dpop && request.refresh_token
                    == token,
                None => result matches Err(Error::InvalidRequest(_)),
            },
        }
    }
}

/// The tokens of a session after a refresh: the new access token; the new
/// refresh token and scope where the answer has them, the old ones
/// otherwise; expiring after the announced lifetime, or after an hour.
pub open spec fn refreshed_tokens(old: TokenSet, response: RefreshResponse, now: i64) -> TokenSet {
    TokenSet {
        access_token: response.access_token,
        refresh_token: match response.refresh_token {
            Some(t) => Some(t),
            None => old.refresh_token,
        },
        scope: match response.scope {
            Some(s) => Some(s),
            None => old.scope,
        },
        expires_at: Some(
            later(
                now,
                match response.expires_in {
                    Some(seconds) => seconds,
                    None => DEFAULT_UPSTREAM_LIFETIME_SECONDS,
                },
            ),
        ),
    }
}

/// What completing a refresh comes to, with a store that does not fail:
/// the session with its new tokens is returned and stored, and the nonce
/// of the answer, if there is one, is stored for the session.
pub open spec fn refresh_completed(
    pre: StoreState,
    session: UpstreamSession,
    response: RefreshResponse,
    now: i64,
    result: Result<UpstreamSession, Error>,
    post: StoreState,
) -> bool {
    let sid = session.session_id@;
    &&& result matches Ok(updated) && updated.account_did == session.account_did
        && updated.session_id == session.session_id && updated.host_url == session.host_url
        && updated.dpop_key@ == session.dpop_key@ && updated.token_set == refreshed_tokens(
        session.token_set,
        response,
        now,
    ) && post.sessions.contains_key(session.key()) && post.sessions[session.key()].same_as(updated)
    &&& post.sessions == pre.sessions.insert(session.key(), post.sessions[session.key()])
    &&& post.dpop_nonces == (match response.dpop_nonce {
        Some(n) => pre.dpop_nonces.insert(sid, n),
        None => pre.dpop_nonces,
    })
    &&& post.par == pre.par
    &&& post.client_info == pre.client_info
    &&& post.pending == pre.pending
    &&& post.refresh == pre.refresh
    &&& post.active == pre.active
    &&& post.dpop_keys == pre.dpop_keys
    &&& post.auth_requests == pre.auth_requests
    &&& post.jkt_index == pre.jkt_index
}

/// Decides whether tokens that expire at `expires_at` are good for more
/// than five minutes at `now`.
pub fn tokens_fresh(expires_at: Option<i64>, now: i64) -> (fresh: bool)
    ensures
        fresh == is_fresh(expires_at, now),
{
    match expires_at {
        Some(t) => (t as i128) > (now as i128) + (REFRESH_BUFFER_SECONDS as i128),
        None => false,
    }
}

/// What deciding on a refresh with the stored key pair comes to, with a
/// store that does not fail: nothing to do while the tokens are fresh, and
/// no store is asked then; otherwise the session must have a stored key
/// pair, and the request is the one for that key and the nonce last seen.
pub open spec fn refresh_planned(
    store: StoreState,
    session: UpstreamSession,
    jti: Seq<char>,
    now: i64,
    result: Result<RefreshStep, Error>,
) -> bool {
    if is_fresh(session.token_set.expires_at, now) {
        result matches Ok(RefreshStep::Fresh)
    } else {
        match store.dpop_keys.get(session.session_id@) {
            None => result matches Err(Error::KeyNotFound),
            Some(entry) => refresh_decided(
                session,
                entry.1@,
                text_view(store.dpop_nonces.get(session.session_id@)),
                jti,
                now,
                result,
            ),
        }
    }
}

/// What deciding on a refresh with the stored key pair comes to, whatever
/// the store does: it can fail only where it was asked, once the tokens
/// were found to be due.
pub open spec fn refresh_answered(
    store: StoreState,
    session: UpstreamSession,
    jti: Seq<char>,
    now: i64,
    result: Result<RefreshStep, Error>,
) -> bool {
    ||| refresh_planned(store, session, jti, now, result)
    ||| is_store_failure(result) && !is_fresh(session.token_set.expires_at, now)
}

impl TokenManager {
    /// Signs a DPoP proof for an upstream request, now, with a fresh random
    /// identifier. Whatever the clock reads and whatever is drawn, the
    /// proof is the one that [`sign_proof`] gives for them.
    pub fn create_upstream_dpop_proof(
        &self,
        method: &str,
        url: &str,
        access_token: Option<&str>,
        nonce: Option<&str>,
        dpop_jwk: &Jwk,
    ) -> (result: Result<String, Error>)
        ensures
            exists|jti: Seq<char>, now: i64|
                jti.len() == 32 && all_base62(jti) && #[trigger] proof_signed(
                    result,
                    dpop_jwk@,
                    method@,
                    url@,
                    optional_view(access_token),
                    optional_view(nonce),
                    jti,
                    now,
                ),
    {
        let jti = generate_random_string(32);
        let now = unix_now();
        let result = sign_proof(dpop_jwk, method, url, access_token, nonce, jti.as_str(), now);
        assert(proof_signed(
            result,
            dpop_jwk@,
            method@,
            url@,
            optional_view(access_token),
            optional_view(nonce),
            jti@,
            now,
        ));
        result
    }

    /// Decides at `now` whether the upstream tokens of a session are to be
    /// refreshed, and with what request. `jti` is the identifier of the
    /// request's proof.
    pub fn plan_upstream_refresh(
        &self,
        session: &UpstreamSession,
        key: &Jwk,
        nonce: Option<&str>,
        jti: &str,
        now: i64,
    ) -> (result: Result<RefreshStep, Error>)
        ensures
            refresh_decided(*session, key@, optional_view(nonce), jti@, now, result),
    {
        if tokens_fresh(session.token_set.expires_at, now) {
            return Ok(RefreshStep::Fresh);
        }
        let refresh_token = match &session.token_set.refresh_token {
            Some(t) => t.clone(),
            None => {
                return Err(Error::SessionExpired);
            },
        };
        let url = session.host_url.clone().concat("/oauth/token");
        match sign_proof(key, "POST", url.as_str(), None, nonce, jti, now) {
            Ok(dpop) => Ok(
                RefreshStep::Request(
                    RefreshRequest {
                        url,
                        grant_type: String::from_str("refresh_token"),
                        dpop,
                        refresh_token,
                    },
                ),
            ),
            Err(e) => Err(e),
        }
    }

    /// Decides, now, whether the upstream tokens of a session are to be
    /// refreshed, with the session's stored key pair and the nonce last
    /// seen. Tokens that are fresh are left alone, and no store is asked.
    /// A session without a stored key pair has no key. Whatever the clock
    /// reads and whatever is drawn, the result is the one that
    /// [`TokenManager::plan_upstream_refresh`] gives for them.
    pub fn refresh_upstream_if_needed<S: OAuthSessionStore>(
        &self,
        session: &UpstreamSession,
        session_store: &S,
    ) -> (result: Result<RefreshStep, Error>)
        ensures
            session_store.never_fails() ==> exists|jti: Seq<char>, now: i64|
                jti.len() == 32 && all_base62(jti) && #[trigger] refresh_planned(
                    session_store.state(),
                    *session,
                    jti,
                    now,
                    result,
                ),
            exists|jti: Seq<char>, now: i64|
                jti.len() == 32 && all_base62(jti) && #[trigger] refresh_answered(
                    session_store.state(),
                    *session,
                    jti,
                    now,
                    result,
                ),
    {
        let jti = generate_random_string(32);
        let now = unix_now();
        let result = self.refresh_upstream_at(session, session_store, jti.as_str(), now);
        proof {
            assert(jti@.len() == 32 && all_base62(jti@));
            assert(refresh_answered(session_store.state(), *session, jti@, now, result));
            if session_store.never_fails() {
                assert(refresh_planned(session_store.state(), *session, jti@, now, result));
            }
        }
        result
    }

    /// Decides at `now` whether the upstream tokens of a session are to be
    /// refreshed, with the session's stored key pair and the nonce last
    /// seen. `jti` is the identifier of the request's proof.
    pub fn refresh_upstream_at<S: OAuthSessionStore>(
        &self,
        session: &UpstreamSession,
        session_store: &S,
        jti: &str,
        now: i64,
    ) -> (result: Result<RefreshStep, Error>)
        ensures
            session_store.never_fails() ==> refresh_planned(
                session_store.state(),
                *session,
                jti@,
                now,
                result,
            ),
            refresh_answered(session_store.state(), *session, jti@, now, result),
    {
        if tokens_fresh(session.token_set.expires_at, now) {
            return Ok(RefreshStep::Fresh);
        }
        let key = match session_store.get_session_dpop_key(session.session_id.as_str()) {
            Ok(Some(entry)) => entry.1,
            Ok(None) => {
                return Err(Error::KeyNotFound);
            },
            Err(e) => {
                return Err(e);
            },
        };
        let nonce = match session_store.get_session_dpop_nonce(session.session_id.as_str()) {
            Ok(n) => n,
            Err(e) => {
                return Err(e);
            },
        };
        self.plan_upstream_refresh(session, &key, borrowed(&nonce), jti, now)
    }

    /// Takes the upstream token endpoint's answer at `now`: updates the
    /// session's tokens, stores the answer's nonce for the session, and
    /// stores the session.
    pub fn complete_upstream_refresh<S: OAuthSessionStore>(
        &self,
        session_store: &mut S,
        session: UpstreamSession,
        response: RefreshResponse,
        now: i64,
    ) -> (result: Result<UpstreamSession, Error>)
        ensures
            final(session_store).never_fails() == old(session_store).never_fails(),
            old(session_store).never_fails() ==> refresh_completed(
                old(session_store).state(),
                session,
                response,
                now,
                result,
                final(session_store).state(),
            ),
            is_store_failure(result) || (refresh_completed(
                old(session_store).state(),
                session,
                response,
                now,
                result,
                final(session_store).state(),
            )),
    {
        let lifetime = match response.expires_in {
            Some(seconds) => seconds,
            None => DEFAULT_UPSTREAM_LIFETIME_SECONDS,
        };
        let token_set = TokenSet {
            access_token: response.access_token,
            refresh_token: match response.refresh_token {
                Some(t) => Some(t),
                None => session.token_set.refresh_token,
            },
            scope: match response.scope {
                Some(s) => Some(s),
                None => session.token_set.scope,
            },
            expires_at: Some(add_seconds(now, lifetime)),
        };
        let updated = UpstreamSession {
            account_did: session.account_did,
            session_id: session.session_id,
            host_url: session.host_url,
            token_set,
            dpop_key: session.dpop_key,
        };
        if let Some(nonce) = response.dpop_nonce {
            match session_store.update_session_dpop_nonce(updated.session_id.as_str(), nonce) {
                Ok(()) => {},
                Err(e) => {
                    return Err(e);
                },
            }
        }
        match session_store.upsert_oauth_session(updated.duplicate()) {
            Ok(()) => Ok(updated),
            Err(e) => Err(e),
        }
    }
}

} // verus!
