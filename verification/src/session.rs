//! The life cycle of a proxied session.

use crate::clock::unix_now;
use crate::random::{generate_nonce_pad, generate_session_id, is_hex_of};
use vstd::prelude::*;

verus! {

/// Identifier of a session.
pub type SessionId = String;

/// Where a session stands in its life cycle.
#[derive(Debug, Clone, Copy, PartialEq, Eq)]
pub enum SessionState {
    /// A pushed authorization request exists; the user has not been sent on.
    PendingPAR,
    /// The user is at the upstream server; the callback has not come.
    AwaitingAuthorization,
    /// The callback came; the client has not yet exchanged its code.
    AwaitingTokenExchange,
    /// Fully authenticated.
    Ready,
    /// Revoked.
    Revoked,
}

/// Both sides of a proxied session in one record: the upstream side
/// (proxy to server) and the downstream side (client to proxy).
#[derive(Debug, Clone)]
pub struct OAuthSession {
    pub id: SessionId,
    pub state: SessionState,
    /// The user's DID.
    pub did: String,
    pub handle: Option<String>,
    /// Base URL of the user's server.
    pub pds_url: String,
    pub upstream_access_token: String,
    pub upstream_refresh_token: Option<String>,
    pub upstream_dpop_key_thumbprint: String,
    /// When the upstream access token expires.
    pub upstream_expires_at: i64,
    pub upstream_scope: String,
    pub upstream_dpop_nonce: Option<String>,
    pub downstream_auth_code: Option<String>,
    pub downstream_refresh_token: Option<String>,
    pub downstream_dpop_key_thumbprint: String,
    /// When the downstream access token expires.
    pub downstream_expires_at: i64,
    pub downstream_dpop_nonce_pad: String,
    /// Identifiers of recently seen proofs.
    pub jti_cache: Vec<String>,
    pub request_uri: Option<String>,
    pub pkce_verifier: Option<String>,
    pub downstream_redirect_uri: String,
    pub downstream_client_id: Option<String>,
    pub downstream_state: Option<String>,
    pub created_at: i64,
    pub last_used_at: i64,
}

/// Whether a token that expires at `expires_at` is due for refresh at `now`:
/// it is, unless it expires later than `buffer_minutes` from `now`.
pub open spec fn refresh_due(expires_at: i64, buffer_minutes: i64, now: i64) -> bool {
    expires_at <= now + buffer_minutes * 60
}

impl OAuthSession {
    /// A session that awaits authorization, with the given identifier and
    /// nonce pad, created at `now`. It holds no tokens, codes or keys yet.
    pub fn new_at(
        did: String,
        pds_url: String,
        client_id: String,
        redirect_uri: String,
        id: SessionId,
        nonce_pad: String,
        now: i64,
    ) -> (session: OAuthSession)
        ensures
            session.id == id,
            session.state == SessionState::AwaitingAuthorization,
            session.did == did,
            session.handle is None,
            session.pds_url == pds_url,
            session.upstream_access_token@.len() == 0,
            session.upstream_refresh_token is None,
            session.upstream_dpop_key_thumbprint@.len() == 0,
            session.upstream_expires_at == now,
            session.upstream_scope@.len() == 0,
            session.upstream_dpop_nonce is None,
            session.downstream_auth_code is None,
            session.downstream_refresh_token is None,
            session.downstream_dpop_key_thumbprint@.len() == 0,
            session.downstream_expires_at == now,
            session.downstream_dpop_nonce_pad == nonce_pad,
            session.jti_cache@.len() == 0,
            session.request_uri is None,
            session.pkce_verifier is None,
            session.downstream_redirect_uri == redirect_uri,
            session.downstream_client_id == Some(client_id),
            session.downstream_state is None,
            session.created_at == now,
            session.last_used_at == now,
    {
        OAuthSession {
            id,
            state: SessionState::AwaitingAuthorization,
            did,
            handle: None,
            pds_url,
            upstream_access_token: String::new(),
            upstream_refresh_token: None,
            upstream_dpop_key_thumbprint: String::new(),
            upstream_expires_at: now,
            upstream_scope: String::new(),
            upstream_dpop_nonce: None,
            downstream_auth_code: None,
            downstream_refresh_token: None,
            downstream_dpop_key_thumbprint: String::new(),
            downstream_expires_at: now,
            downstream_dpop_nonce_pad: nonce_pad,
            jti_cache: Vec::new(),
            request_uri: None,
            pkce_verifier: None,
            downstream_redirect_uri: redirect_uri,
            downstream_client_id: Some(client_id),
            downstream_state: None,
            created_at: now,
            last_used_at: now,
        }
    }

    /// A session that awaits authorization, with a fresh random identifier
    /// and nonce pad, created now.
    pub fn new(did: String, pds_url: String, client_id: String, redirect_uri: String) -> (session:
        OAuthSession)
        ensures
            session.id@.len() == 64,
            is_hex_of(session.id@, 32),
            is_hex_of(session.downstream_dpop_nonce_pad@, 16),
            session.state == SessionState::AwaitingAuthorization,
            session.did == did,
            session.handle is None,
            session.pds_url == pds_url,
            session.upstream_access_token@.len() == 0,
            session.upstream_refresh_token is None,
            session.upstream_dpop_key_thumbprint@.len() == 0,
            session.upstream_expires_at == session.created_at,
            session.upstream_scope@.len() == 0,
            session.upstream_dpop_nonce is None,
            session.downstream_auth_code is None,
            session.downstream_refresh_token is None,
            session.downstream_dpop_key_thumbprint@.len() == 0,
            session.downstream_expires_at == session.created_at,
            session.downstream_dpop_nonce_pad@.len() == 32,
            session.jti_cache@.len() == 0,
            session.request_uri is None,
            session.pkce_verifier is None,
            session.downstream_redirect_uri == redirect_uri,
            session.downstream_client_id == Some(client_id),
            session.downstream_state is None,
            session.last_used_at == session.created_at,
    {
        let id = generate_session_id();
        let nonce_pad = generate_nonce_pad();
        let now = unix_now();
        OAuthSession::new_at(did, pds_url, client_id, redirect_uri, id, nonce_pad, now)
    }

    /// Whether the session is ready for use.
    pub fn is_ready(&self) -> (ready: bool)
        ensures
            ready == (self.state == SessionState::Ready),
    {
        match self.state {
            SessionState::Ready => true,
            _ => false,
        }
    }

    /// Whether the session has been revoked.
    pub fn is_revoked(&self) -> (revoked: bool)
        ensures
            revoked == (self.state == SessionState::Revoked),
    {
        match self.state {
            SessionState::Revoked => true,
            _ => false,
        }
    }

    /// Whether, at `now`, the upstream token expires within
    /// `buffer_minutes`.
    pub fn needs_refresh_at(&self, buffer_minutes: i64, now: i64) -> (due: bool)
        ensures
            due == refresh_due(self.upstream_expires_at, buffer_minutes, now),
    {
        let limit: i128 = (now as i128) + (buffer_minutes as i128) * 60;
        (self.upstream_expires_at as i128) <= limit
    }

    /// Whether the upstream token expires within `buffer_minutes` of the
    /// present moment, whatever the clock reads.
    pub fn needs_refresh(&self, buffer_minutes: i64) -> (due: bool)
        ensures
            exists|now: i64|
                due == #[trigger] refresh_due(self.upstream_expires_at, buffer_minutes, now),
    {
        let now = unix_now();
        self.needs_refresh_at(buffer_minutes, now)
    }
}

} // verus!
