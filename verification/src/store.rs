//! What the proxy persists, and the interface through which it does so.
//!
//! The store is an aggregate of logical maps. Its contracts are stated over
//! [`StoreState`], the mathematical content of those maps; an implementation
//! may keep them in memory or in a database.

use crate::crypto::SigningKey;
use crate::error::Error;
use crate::jwk::Jwk;
use crate::table::Key;
use crate::text::copy_optional;
use vstd::prelude::*;

verus! {

/// Seconds for which a pushed authorization request can be redeemed.
pub const PAR_LIFETIME_SECONDS: i64 = 90;

/// Seconds for which a flow's client info and a pending authorization code
/// are kept.
pub const FLOW_LIFETIME_SECONDS: i64 = 600;

/// Longest DID, in bytes.
pub const MAX_DID_BYTES: usize = 2048;

/// Whether a character may stand in the identifier of a DID: the ASCII
/// letters and digits, `.`, `_`, `:`, `%` and `-`.
pub open spec fn is_did_char(c: char) -> bool {
    ('a' <= c && c <= 'z') || ('A' <= c && c <= 'Z') || ('0' <= c && c <= '9') || c == '.' || c
        == '_' || c == ':' || c == '%' || c == '-'
}

/// Whether a text is written as a DID: `did:`, a method of one or more
/// small letters, a colon, and an identifier of one or more characters
/// that ends in neither `:` nor `%`.
pub open spec fn did_syntax(s: Seq<char>) -> bool {
    &&& "did:"@.is_prefix_of(s)
    &&& exists|colon: int|
        {
            &&& 4 < colon < s.len() - 1
            &&& #[trigger] s[colon] == ':'
            &&& forall|i: int| 4 <= i < colon ==> 'a' <= #[trigger] s[i] <= 'z'
            &&& forall|i: int| colon < i < s.len() ==> is_did_char(#[trigger] s[i])
        }
    &&& s.last() != ':'
    &&& s.last() != '%'
}

/// Whether a text is a DID as the network writes them, with or without a
/// leading `at://`: what follows that prefix is written as a DID and has
/// at most 2048 bytes.
pub open spec fn valid_did(text: Seq<char>) -> bool {
    let did = if "at://"@.is_prefix_of(text) {
        text.skip(5)
    } else {
        text
    };
    vstd::utf8::encode_utf8(did).len() <= MAX_DID_BYTES && did_syntax(did)
}

/// Calls `jacquard_common::types::did::Did::new_owned`. Trusted: the
/// result says whether the text is accepted as a DID: the function drops a
/// leading `at://`, refuses more than 2048 bytes, and holds the rest against
/// the pattern that [`did_syntax`] spells out.
#[verifier::external_body]
pub(crate) fn check_did(text: &str) -> (valid: bool)
    ensures
        valid == valid_did(text@),
{
    jacquard_common::types::did::Did::<jacquard_common::DefaultStr>::new_owned(text).is_ok()
}

/// A downstream authorization code that waits to be exchanged for tokens.
#[derive(Debug, Clone)]
pub struct PendingAuth {
    /// Account DID from the upstream authorization.
    pub account_did: String,
    /// Identifier of the upstream session.
    pub upstream_session_id: String,
    /// The downstream client's redirect URI.
    pub redirect_uri: String,
    /// The downstream client's `state` parameter.
    pub state: Option<String>,
    /// When this authorization expires.
    pub expires_at: i64,
}

/// What the proxy remembers of the downstream client during one flow.
#[derive(Debug, Clone)]
pub struct DownstreamClientInfo {
    pub redirect_uri: String,
    pub state: Option<String>,
    pub response_type: String,
    pub scope: Option<String>,
    /// When this record expires.
    pub expires_at: i64,
}

/// A pushed authorization request.
#[derive(Debug, Clone)]
pub struct PARData {
    pub client_id: String,
    pub redirect_uri: String,
    pub response_type: String,
    pub state: Option<String>,
    pub scope: Option<String>,
    pub code_challenge: Option<String>,
    pub code_challenge_method: Option<String>,
    /// The user's handle or DID.
    pub login_hint: Option<String>,
    /// Thumbprint of the downstream client's DPoP key.
    pub downstream_dpop_jkt: String,
    /// When this request expires.
    pub expires_at: i64,
}

/// The tokens the upstream server granted.
#[derive(Debug, Clone)]
pub struct TokenSet {
    pub access_token: String,
    pub refresh_token: Option<String>,
    pub scope: Option<String>,
    pub expires_at: Option<i64>,
}

/// The proxy's session with a user's upstream server.
pub struct UpstreamSession {
    pub account_did: String,
    pub session_id: String,
    /// Base URL of the user's server.
    pub host_url: String,
    pub token_set: TokenSet,
    /// The key pair that binds the upstream tokens, private part included.
    pub dpop_key: Jwk,
}

/// What the proxy keeps between starting an upstream authorization and the
/// upstream server's callback.
pub struct AuthRequestData {
    pub state: String,
    pub iss: String,
    pub scope: Option<String>,
    pub pkce_verifier: String,
    pub upstream_dpop_key: Jwk,
}

/// The key of an upstream session: the account and the session identifier.
pub struct SessionKey {
    pub did: String,
    pub session_id: String,
}

impl View for SessionKey {
    type V = (Seq<char>, Seq<char>);

    open spec fn view(&self) -> (Seq<char>, Seq<char>) {
        (self.did@, self.session_id@)
    }
}

impl Key for SessionKey {
    fn same(&self, other: &Self) -> (same: bool) {
        self.did == other.did && self.session_id == other.session_id
    }
}

impl PendingAuth {
    /// An equal record of its own.
    pub fn duplicate(&self) -> (copy: PendingAuth)
        ensures
            copy == *self,
    {
        PendingAuth {
            account_did: self.account_did.clone(),
            upstream_session_id: self.upstream_session_id.clone(),
            redirect_uri: self.redirect_uri.clone(),
            state: copy_optional(&self.state),
            expires_at: self.expires_at,
        }
    }
}

impl DownstreamClientInfo {
    /// An equal record of its own.
    pub fn duplicate(&self) -> (copy: DownstreamClientInfo)
        ensures
            copy == *self,
    {
        DownstreamClientInfo {
            redirect_uri: self.redirect_uri.clone(),
            state: copy_optional(&self.state),
            response_type: self.response_type.clone(),
            scope: copy_optional(&self.scope),
            expires_at: self.expires_at,
        }
    }
}

impl PARData {
    /// An equal record of its own.
    pub fn duplicate(&self) -> (copy: PARData)
        ensures
            copy == *self,
    {
        PARData {
            client_id: self.client_id.clone(),
            redirect_uri: self.redirect_uri.clone(),
            response_type: self.response_type.clone(),
            state: copy_optional(&self.state),
            scope: copy_optional(&self.scope),
            code_challenge: copy_optional(&self.code_challenge),
            code_challenge_method: copy_optional(&self.code_challenge_method),
            login_hint: copy_optional(&self.login_hint),
            downstream_dpop_jkt: self.downstream_dpop_jkt.clone(),
            expires_at: self.expires_at,
        }
    }
}

impl TokenSet {
    /// An equal record of its own.
    pub fn duplicate(&self) -> (copy: TokenSet)
        ensures
            copy == *self,
    {
        TokenSet {
            access_token: self.access_token.clone(),
            refresh_token: copy_optional(&self.refresh_token),
            scope: copy_optional(&self.scope),
            expires_at: self.expires_at,
        }
    }
}

impl UpstreamSession {
    /// Whether two sessions hold the same data: equal texts and tokens, and
    /// keys with the same members.
    pub open spec fn same_as(self, other: UpstreamSession) -> bool {
        &&& self.account_did == other.account_did
        &&& self.session_id == other.session_id
        &&& self.host_url == other.host_url
        &&& self.token_set == other.token_set
        &&& self.dpop_key@ == other.dpop_key@
    }

    /// The key under which the session is stored.
    pub open spec fn key(self) -> (Seq<char>, Seq<char>) {
        (self.account_did@, self.session_id@)
    }

    /// A session of its own with the same data.
    pub fn duplicate(&self) -> (copy: UpstreamSession)
        ensures
            copy.same_as(*self),
    {
        UpstreamSession {
            account_did: self.account_did.clone(),
            session_id: self.session_id.clone(),
            host_url: self.host_url.clone(),
            token_set: self.token_set.duplicate(),
            dpop_key: self.dpop_key.duplicate(),
        }
    }
}

impl AuthRequestData {
    /// Whether two records hold the same data.
    pub open spec fn same_as(self, other: AuthRequestData) -> bool {
        &&& self.state == other.state
        &&& self.iss == other.iss
        &&& self.scope == other.scope
        &&& self.pkce_verifier == other.pkce_verifier
        &&& self.upstream_dpop_key@ == other.upstream_dpop_key@
    }

    /// A record of its own with the same data.
    pub fn duplicate(&self) -> (copy: AuthRequestData)
        ensures
            copy.same_as(*self),
    {
        AuthRequestData {
            state: self.state.clone(),
            iss: self.iss.clone(),
            scope: copy_optional(&self.scope),
            pkce_verifier: self.pkce_verifier.clone(),
            upstream_dpop_key: self.upstream_dpop_key.duplicate(),
        }
    }
}

/// The content of a session store: one map per kind of record.
pub ghost struct StoreState {
    /// Pushed authorization requests, by request URI.
    pub par: Map<Seq<char>, PARData>,
    /// Downstream client info, by flow key.
    pub client_info: Map<Seq<char>, DownstreamClientInfo>,
    /// Pending authorizations, by downstream authorization code.
    pub pending: Map<Seq<char>, PendingAuth>,
    /// Account and session, by downstream refresh token.
    pub refresh: Map<Seq<char>, (String, String)>,
    /// The most recent session, by account.
    pub active: Map<Seq<char>, String>,
    /// Thumbprint and key pair for upstream calls, by session.
    pub dpop_keys: Map<Seq<char>, (String, Jwk)>,
    /// The last nonce the upstream server sent, by session.
    pub dpop_nonces: Map<Seq<char>, String>,
    /// Upstream sessions, by account and session.
    pub sessions: Map<(Seq<char>, Seq<char>), UpstreamSession>,
    /// Upstream authorization requests in flight, by `state`.
    pub auth_requests: Map<Seq<char>, AuthRequestData>,
    /// Account and session, by thumbprint of the downstream client's key.
    pub jkt_index: Map<Seq<char>, (String, String)>,
}

/// Whether an operation failed in the store itself.
pub open spec fn is_storage_failure<T>(result: Result<T, Error>) -> bool {
    result matches Err(Error::StorageError(_))
}

/// Whether an operation failed in a store: with a storage error, or for
/// want of a key.
pub open spec fn is_store_failure<T>(result: Result<T, Error>) -> bool {
    result matches Err(e) && (e is StorageError || e is KeyNotFound || e is KeyGenerationFailed)
}

/// Persistence for the two-sided OAuth flow.
///
/// Every operation may fail with a storage error and then changes
/// nothing. A store for which [`OAuthSessionStore::never_fails`] holds
/// always succeeds, except where a record must not exist yet.
pub trait OAuthSessionStore {
    /// What the store holds. An implementation outside verified code
    /// leaves this undefined.
    open spec fn state(&self) -> StoreState {
        arbitrary()
    }

    /// Whether the store's operations cannot fail. Unless an implementation
    /// says otherwise, they can.
    open spec fn never_fails(&self) -> bool {
        false
    }

    /// Stores a pushed authorization request under a request URI that is
    /// not in use.
    fn store_par_data(&mut self, request_uri: &str, data: PARData) -> (result: Result<(), Error>)
        ensures
            final(self).never_fails() == old(self).never_fails(),
            old(self).never_fails() && !old(self).state().par.contains_key(request_uri@)
                ==> result is Ok,
            result is Ok ==> !old(self).state().par.contains_key(request_uri@)
                && final(self).state() == (StoreState {
                par: old(self).state().par.insert(request_uri@, data),
                ..old(self).state()
            }),
            result is Err ==> is_storage_failure(result) && final(self).state()
                == old(self).state(),
    ;

    /// Takes a pushed authorization request out of the store.
    fn consume_par_data(&mut self, request_uri: &str) -> (result: Result<Option<PARData>, Error>)
        ensures
            final(self).never_fails() == old(self).never_fails(),
            old(self).never_fails() ==> result is Ok,
            result matches Ok(found) ==> found == old(self).state().par.get(request_uri@)
                && final(self).state() == (StoreState {
                par: old(self).state().par.remove(request_uri@),
                ..old(self).state()
            }),
            result is Err ==> is_storage_failure(result) && final(self).state()
                == old(self).state(),
    ;

    /// Stores a flow's client info, in place of any under the same key.
    fn store_downstream_client_info(&mut self, key: &str, info: DownstreamClientInfo) -> (result:
        Result<(), Error>)
        ensures
            final(self).never_fails() == old(self).never_fails(),
            old(self).never_fails() ==> result is Ok,
            result is Ok ==> final(self).state() == (StoreState {
                client_info: old(self).state().client_info.insert(key@, info),
                ..old(self).state()
            }),
            result is Err ==> is_storage_failure(result) && final(self).state()
                == old(self).state(),
    ;

    /// Takes a flow's client info out of the store.
    fn consume_downstream_client_info(&mut self, key: &str) -> (result: Result<
        Option<DownstreamClientInfo>,
        Error,
    >)
        ensures
            final(self).never_fails() == old(self).never_fails(),
            old(self).never_fails() ==> result is Ok,
            result matches Ok(found) ==> found == old(self).state().client_info.get(key@)
                && final(self).state() == (StoreState {
                client_info: old(self).state().client_info.remove(key@),
                ..old(self).state()
            }),
            result is Err ==> is_storage_failure(result) && final(self).state()
                == old(self).state(),
    ;

    /// Stores a pending authorization under a code that is not in use.
    fn store_pending_auth(&mut self, code: &str, auth: PendingAuth) -> (result: Result<(), Error>)
        ensures
            final(self).never_fails() == old(self).never_fails(),
            old(self).never_fails() && !old(self).state().pending.contains_key(code@)
                ==> result is Ok,
            result is Ok ==> !old(self).state().pending.contains_key(code@)
                && final(self).state() == (StoreState {
                pending: old(self).state().pending.insert(code@, auth),
                ..old(self).state()
            }),
            result is Err ==> is_storage_failure(result) && final(self).state()
                == old(self).state(),
    ;

    /// Takes a pending authorization out of the store.
    fn consume_pending_auth(&mut self, code: &str) -> (result: Result<Option<PendingAuth>, Error>)
        ensures
            final(self).never_fails() == old(self).never_fails(),
            old(self).never_fails() ==> result is Ok,
            result matches Ok(found) ==> found == old(self).state().pending.get(code@)
                && final(self).state() == (StoreState {
                pending: old(self).state().pending.remove(code@),
                ..old(self).state()
            }),
            result is Err ==> is_storage_failure(result) && final(self).state()
                == old(self).state(),
    ;

    /// Maps a downstream refresh token to an account and a session.
    fn store_refresh_token_mapping(
        &mut self,
        refresh_token: &str,
        account_did: String,
        session_id: String,
    ) -> (result: Result<(), Error>)
        ensures
            final(self).never_fails() == old(self).never_fails(),
            old(self).never_fails() ==> result is Ok,
            result is Ok ==> final(self).state() == (StoreState {
                refresh: old(self).state().refresh.insert(
                    refresh_token@,
                    (account_did, session_id),
                ),
                ..old(self).state()
            }),
            result is Err ==> is_storage_failure(result) && final(self).state()
                == old(self).state(),
    ;

    /// Replaces the mapping of a downstream refresh token by that of its
    /// successor, in one write: afterwards the old token maps to nothing.
    fn rotate_refresh_token_mapping(
        &mut self,
        old_token: &str,
        new_token: &str,
        account_did: String,
        session_id: String,
    ) -> (result: Result<(), Error>)
        ensures
            final(self).never_fails() == old(self).never_fails(),
            old(self).never_fails() ==> result is Ok,
            result is Ok ==> final(self).state() == (StoreState {
                refresh: old(self).state().refresh.remove(old_token@).insert(
                    new_token@,
                    (account_did, session_id),
                ),
                ..old(self).state()
            }),
            result is Err ==> is_storage_failure(result) && final(self).state()
                == old(self).state(),
    ;

    /// Looks a downstream refresh token up. The mapping stays in place.
    fn get_refresh_token_mapping(&self, refresh_token: &str) -> (result: Result<
        Option<(String, String)>,
        Error,
    >)
        ensures
            self.never_fails() ==> result is Ok,
            result matches Ok(found) ==> found == self.state().refresh.get(refresh_token@),
            result is Err ==> is_storage_failure(result),
    ;

    /// Records the most recent session of an account.
    fn store_active_session(&mut self, did: &str, session_id: String) -> (result: Result<
        (),
        Error,
    >)
        ensures
            final(self).never_fails() == old(self).never_fails(),
            old(self).never_fails() ==> result is Ok,
            result is Ok ==> final(self).state() == (StoreState {
                active: old(self).state().active.insert(did@, session_id),
                ..old(self).state()
            }),
            result is Err ==> is_storage_failure(result) && final(self).state()
                == old(self).state(),
    ;

    /// The most recent session of an account.
    fn get_active_session(&self, did: &str) -> (result: Result<Option<String>, Error>)
        ensures
            self.never_fails() ==> result is Ok,
            result matches Ok(found) ==> found == self.state().active.get(did@),
            result is Err ==> is_storage_failure(result),
    ;

    /// Stores the key pair a session uses for upstream calls.
    fn store_session_dpop_key(&mut self, session_id: &str, dpop_jkt: String, key: Jwk) -> (result:
        Result<(), Error>)
        ensures
            final(self).never_fails() == old(self).never_fails(),
            old(self).never_fails() ==> result is Ok,
            result is Ok ==> final(self).state() == (StoreState {
                dpop_keys: old(self).state().dpop_keys.insert(session_id@, (dpop_jkt, key)),
                ..old(self).state()
            }),
            result is Err ==> is_storage_failure(result) && final(self).state()
                == old(self).state(),
    ;

    /// The thumbprint and key pair a session uses for upstream calls.
    fn get_session_dpop_key(&self, session_id: &str) -> (result: Result<
        Option<(String, Jwk)>,
        Error,
    >)
        ensures
            self.never_fails() ==> result is Ok,
            result matches Ok(found) ==> match found {
                Some((jkt, key)) => self.state().dpop_keys.contains_key(session_id@) && jkt
                    == self.state().dpop_keys[session_id@].0 && key@
                    == self.state().dpop_keys[session_id@].1@,
                None => !self.state().dpop_keys.contains_key(session_id@),
            },
            result is Err ==> is_storage_failure(result),
    ;

    /// Records the nonce the upstream server sent last.
    fn update_session_dpop_nonce(&mut self, session_id: &str, nonce: String) -> (result: Result<
        (),
        Error,
    >)
        ensures
            final(self).never_fails() == old(self).never_fails(),
            old(self).never_fails() ==> result is Ok,
            result is Ok ==> final(self).state() == (StoreState {
                dpop_nonces: old(self).state().dpop_nonces.insert(session_id@, nonce),
                ..old(self).state()
            }),
            result is Err ==> is_storage_failure(result) && final(self).state()
                == old(self).state(),
    ;

    /// The nonce the upstream server sent last.
    fn get_session_dpop_nonce(&self, session_id: &str) -> (result: Result<Option<String>, Error>)
        ensures
            self.never_fails() ==> result is Ok,
            result matches Ok(found) ==> found == self.state().dpop_nonces.get(session_id@),
            result is Err ==> is_storage_failure(result),
    ;

    /// Stores an upstream session under its account and session identifier,
    /// in place of any that was there.
    fn upsert_oauth_session(&mut self, session: UpstreamSession) -> (result: Result<(), Error>)
        ensures
            final(self).never_fails() == old(self).never_fails(),
            old(self).never_fails() ==> result is Ok,
            result is Ok ==> final(self).state() == (StoreState {
                sessions: old(self).state().sessions.insert(session.key(), session),
                ..old(self).state()
            }),
            result is Err ==> is_storage_failure(result) && final(self).state()
                == old(self).state(),
    ;

    /// The upstream session of an account and session identifier.
    fn get_oauth_session(&self, did: &str, session_id: &str) -> (result: Result<
        Option<UpstreamSession>,
        Error,
    >)
        ensures
            self.never_fails() ==> result is Ok,
            result matches Ok(found) ==> match found {
                Some(session) => self.state().sessions.contains_key((did@, session_id@))
                    && session.same_as(self.state().sessions[(did@, session_id@)]),
                None => !self.state().sessions.contains_key((did@, session_id@)),
            },
            result is Err ==> is_storage_failure(result),
    ;

    /// Deletes an upstream session, if there is one, and with it the key
    /// pair and the nonce that belong to the session.
    fn delete_oauth_session(&mut self, did: &str, session_id: &str) -> (result: Result<(), Error>)
        ensures
            final(self).never_fails() == old(self).never_fails(),
            old(self).never_fails() ==> result is Ok,
            result is Ok ==> final(self).state() == (StoreState {
                sessions: old(self).state().sessions.remove((did@, session_id@)),
                dpop_keys: old(self).state().dpop_keys.remove(session_id@),
                dpop_nonces: old(self).state().dpop_nonces.remove(session_id@),
                ..old(self).state()
            }),
            result is Err ==> is_storage_failure(result) && final(self).state()
                == old(self).state(),
    ;

    /// Stores an upstream authorization request under its `state`.
    fn save_auth_req_info(&mut self, info: AuthRequestData) -> (result: Result<(), Error>)
        ensures
            final(self).never_fails() == old(self).never_fails(),
            old(self).never_fails() ==> result is Ok,
            result is Ok ==> final(self).state() == (StoreState {
                auth_requests: old(self).state().auth_requests.insert(info.state@, info),
                ..old(self).state()
            }),
            result is Err ==> is_storage_failure(result) && final(self).state()
                == old(self).state(),
    ;

    /// The upstream authorization request with the given `state`.
    fn get_auth_req_info(&self, state: &str) -> (result: Result<Option<AuthRequestData>, Error>)
        ensures
            self.never_fails() ==> result is Ok,
            result matches Ok(found) ==> match found {
                Some(info) => self.state().auth_requests.contains_key(state@) && info.same_as(
                    self.state().auth_requests[state@],
                ),
                None => !self.state().auth_requests.contains_key(state@),
            },
            result is Err ==> is_storage_failure(result),
    ;

    /// Deletes an upstream authorization request, if there is one.
    fn delete_auth_req_info(&mut self, state: &str) -> (result: Result<(), Error>)
        ensures
            final(self).never_fails() == old(self).never_fails(),
            old(self).never_fails() ==> result is Ok,
            result is Ok ==> final(self).state() == (StoreState {
                auth_requests: old(self).state().auth_requests.remove(state@),
                ..old(self).state()
            }),
            result is Err ==> is_storage_failure(result) && final(self).state()
                == old(self).state(),
    ;

    /// Records which account and session a downstream key was last issued
    /// tokens for.
    fn bind_dpop_jkt(&mut self, jkt: &str, account_did: String, session_id: String) -> (result:
        Result<(), Error>)
        ensures
            final(self).never_fails() == old(self).never_fails(),
            old(self).never_fails() ==> result is Ok,
            result is Ok ==> final(self).state() == (StoreState {
                jkt_index: old(self).state().jkt_index.insert(jkt@, (account_did, session_id)),
                ..old(self).state()
            }),
            result is Err ==> is_storage_failure(result) && final(self).state()
                == old(self).state(),
    ;

    /// The account and session a downstream key was last issued tokens for.
    fn get_by_dpop_jkt(&self, jkt: &str) -> (result: Result<Option<(String, String)>, Error>)
        ensures
            self.never_fails() ==> result is Ok,
            result matches Ok(found) ==> found == self.state().jkt_index.get(jkt@),
            result is Err ==> is_storage_failure(result),
    ;

    /// Forgets which account and session a downstream key belongs to.
    fn unbind_dpop_jkt(&mut self, jkt: &str) -> (result: Result<(), Error>)
        ensures
            final(self).never_fails() == old(self).never_fails(),
            old(self).never_fails() ==> result is Ok,
            result is Ok ==> final(self).state() == (StoreState {
                jkt_index: old(self).state().jkt_index.remove(jkt@),
                ..old(self).state()
            }),
            result is Err ==> is_storage_failure(result) && final(self).state()
                == old(self).state(),
    ;
}

/// The keys of the proxy.
pub trait KeyStore {
    /// The private scalar with which the proxy signs downstream tokens. An
    /// implementation outside verified code leaves this undefined.
    open spec fn signing_secret(&self) -> Seq<u8> {
        arbitrary()
    }

    /// Whether the store's operations cannot fail. Unless an implementation
    /// says otherwise, they can.
    open spec fn never_fails(&self) -> bool {
        false
    }

    /// The proxy's signing key.
    fn get_signing_key(&self) -> (result: Result<SigningKey, Error>)
        ensures
            self.never_fails() ==> result is Ok,
            result matches Ok(key) ==> key@ == self.signing_secret(),
            result is Err ==> is_store_failure(result),
    ;
}

/// The identifiers of `used` that were first seen at `before` or later,
/// each with its time.
pub open spec fn seen_since(used: Map<Seq<char>, i64>, before: i64) -> Map<Seq<char>, i64> {
    Map::new(
        |jti: Seq<char>| used.contains_key(jti) && used[jti] >= before,
        |jti: Seq<char>| used[jti],
    )
}

/// One-shot identifiers of DPoP proofs: the replay protection.
pub trait NonceStore {
    /// The identifiers seen so far, each with the time it was first seen.
    /// An implementation outside verified code leaves this undefined.
    open spec fn used(&self) -> Map<Seq<char>, i64> {
        arbitrary()
    }

    /// Whether the store's operations cannot fail. Unless an implementation
    /// says otherwise, they can.
    open spec fn never_fails(&self) -> bool {
        false
    }

    /// Records an identifier at its first sight. Returns `true` if it was
    /// not present and is now recorded, `false` if it was present already.
    fn check_and_consume_nonce(&mut self, jti: &str, now: i64) -> (result: Result<bool, Error>)
        ensures
            final(self).never_fails() == old(self).never_fails(),
            old(self).never_fails() ==> result is Ok,
            result matches Ok(fresh) ==> fresh == !old(self).used().contains_key(jti@)
                && final(self).used() == (if fresh {
                old(self).used().insert(jti@, now)
            } else {
                old(self).used()
            }),
            result is Err ==> is_storage_failure(result) && final(self).used() == old(self).used(),
    ;

    /// Purges identifiers first seen before `before`. Best effort: one that
    /// is older may stay; one that is not older stays.
    fn cleanup_expired(&mut self, before: i64) -> (result: Result<(), Error>)
        ensures
            final(self).never_fails() == old(self).never_fails(),
            old(self).never_fails() ==> result is Ok,
            final(self).used().submap_of(old(self).used()),
            forall|jti: Seq<char>| #[trigger]
                old(self).used().contains_key(jti) && old(self).used()[jti] >= before
                    ==> final(self).used().contains_key(jti),
            result is Err ==> is_storage_failure(result),
    ;
}

} // verus!
