//! The authorization endpoints: `GET /oauth/authorize`, which sends the
//! user to the upstream server, and `GET /oauth/return`, which receives the
//! user back and hands the client its authorization code.
//!
//! Both need the upstream authorization client, which talks to the
//! network. Each is therefore split in two: the first function decides what
//! to ask of the upstream client, the second takes what came back.

use crate::clock::{add_seconds, later, unix_now};
use crate::config::{normalized_scope, parse_scope};
use crate::encoding::{percent_encode, percent_encoded};
use crate::error::{invalid_request, is_invalid_request, Error};
use crate::jwk::{compute_jwk_thumbprint, fault_text, thumbprint_of, ThumbprintOutcome};
use crate::random::{all_base62, generate_random_string};
use crate::server::{text_or_empty, OAuthProxyServer};
use crate::store::{
    is_storage_failure, is_store_failure, DownstreamClientInfo, FLOW_LIFETIME_SECONDS, KeyStore,
    NonceStore, OAuthSessionStore, PARData, PendingAuth, StoreState, UpstreamSession,
};
use crate::text::{copy_texts, space_separated, split_spaces, text_view, views};
use vstd::prelude::*;
use vstd::string::*;

verus! {

/// The query parameters of an authorization request.
#[derive(Debug)]
pub struct AuthorizeParams {
    pub client_id: Option<String>,
    pub redirect_uri: Option<String>,
    pub response_type: Option<String>,
    pub state: Option<String>,
    pub scope: Option<String>,
    pub request_uri: Option<String>,
    /// The user's handle or DID.
    pub login_hint: Option<String>,
}

/// What the upstream authorization client is asked to start, and what the
/// proxy has to remember of the downstream client meanwhile.
#[derive(Debug)]
pub struct UpstreamAuthRequest {
    /// The user's handle or DID.
    pub user_identifier: String,
    /// The scopes to request upstream.
    pub scopes: Vec<String>,
    /// The proxy's own `state`, which links the two flows.
    pub state: String,
    pub redirect_uri: String,
    pub client_state: Option<String>,
    pub response_type: String,
    pub scope: Option<String>,
}

/// A redirect, sent with status 302.
#[derive(Debug)]
pub struct Redirect {
    pub location: String,
}

impl Redirect {
    /// The status a redirect is sent with: 302, found.
    pub fn status_code(&self) -> (status: u16)
        ensures
            status == 302,
    {
        302
    }
}

/// The query parameters of the upstream server's callback.
#[derive(Debug)]
pub struct CallbackParams {
    pub code: Option<String>,
    pub state: Option<String>,
    pub iss: Option<String>,
    pub error: Option<String>,
}

/// What the upstream authorization client is asked to exchange.
#[derive(Debug)]
pub struct UpstreamCallback {
    pub code: String,
    pub state: String,
    pub iss: Option<String>,
}

/// The normal forms of those texts that are scopes, in order.
pub open spec fn normal_forms(tokens: Seq<Seq<char>>) -> Seq<Seq<char>>
    decreases tokens.len(),
{
    if tokens.len() == 0 {
        Seq::empty()
    } else {
        let rest = normal_forms(tokens.drop_last());
        match normalized_scope(tokens.last()) {
            Some(n) => rest.push(n),
            None => rest,
        }
    }
}

/// The scopes to request upstream: the valid ones among the space-separated
/// scopes of the request, or the configured scopes if the request names
/// none.
pub open spec fn requested_scopes(scope: Option<Seq<char>>, defaults: Seq<Seq<char>>) -> Seq<
    Seq<char>,
> {
    match scope {
        Some(s) => normal_forms(space_separated(s)),
        None => defaults,
    }
}

/// What an authorization rests on: the parameters of a pushed request or
/// those of the query.
pub struct AuthorizeSource {
    pub redirect_uri: String,
    pub response_type: String,
    pub state: Option<String>,
    pub scope: Option<String>,
    pub login_hint: Option<String>,
}

/// The user an authorization is for: the login hint of the query where it
/// has one, otherwise the one of the pushed request.
pub open spec fn hint_of(query: Option<String>, pushed: Option<String>) -> Option<String> {
    if query is Some {
        query
    } else {
        pushed
    }
}

/// What an authorization with a pushed request rests on.
pub open spec fn pushed_source(params: AuthorizeParams, data: PARData) -> AuthorizeSource {
    AuthorizeSource {
        redirect_uri: data.redirect_uri,
        response_type: data.response_type,
        state: data.state,
        scope: data.scope,
        login_hint: hint_of(params.login_hint, data.login_hint),
    }
}

/// What an authorization without a pushed request rests on, where the
/// query names a redirect URI and a response type.
pub open spec fn query_source(params: AuthorizeParams) -> AuthorizeSource {
    AuthorizeSource {
        redirect_uri: params.redirect_uri->0,
        response_type: params.response_type->0,
        state: params.state,
        scope: params.scope,
        login_hint: params.login_hint,
    }
}

/// Whether a request to the upstream client is the one for `source`.
pub open spec fn starts_from(
    request: UpstreamAuthRequest,
    source: AuthorizeSource,
    defaults: Seq<Seq<char>>,
    proxy_state: Seq<char>,
) -> bool {
    &&& Some(request.user_identifier) == source.login_hint
    &&& views(request.scopes@) == requested_scopes(text_view(source.scope), defaults)
    &&& request.state@ == proxy_state
    &&& request.redirect_uri == source.redirect_uri
    &&& request.client_state == source.state
    &&& request.response_type == source.response_type
    &&& request.scope == source.scope
}

/// What is decided once it is known what an authorization rests on: a
/// missing login hint is an invalid request, otherwise the upstream client
/// is asked.
pub open spec fn source_decided(
    source: AuthorizeSource,
    defaults: Seq<Seq<char>>,
    proxy_state: Seq<char>,
    result: Result<UpstreamAuthRequest, Error>,
) -> bool {
    if source.login_hint is None {
        is_invalid_request(result, "missing login_hint"@)
    } else {
        result matches Ok(request) && starts_from(request, source, defaults, proxy_state)
    }
}

/// What is wrong with a query that has no request URI, if anything: the
/// first of client, redirect URI and response type that is missing.
pub open spec fn query_fault(params: AuthorizeParams) -> Option<Seq<char>> {
    if params.client_id is None {
        Some("missing client_id"@)
    } else if params.redirect_uri is None {
        Some("missing redirect_uri"@)
    } else if params.response_type is None {
        Some("missing response_type"@)
    } else {
        None
    }
}

/// What beginning an authorization without a request URI comes to. No
/// store is asked.
pub open spec fn direct_begun(
    defaults: Seq<Seq<char>>,
    params: AuthorizeParams,
    proxy_state: Seq<char>,
    result: Result<UpstreamAuthRequest, Error>,
) -> bool {
    match query_fault(params) {
        Some(reason) => is_invalid_request(result, reason),
        None => source_decided(query_source(params), defaults, proxy_state, result),
    }
}

/// What beginning an authorization comes to, with a store that does not
/// fail. A request URI is taken out of the store whatever follows; it must
/// be known and not expired. A request without a request URI must name
/// client, redirect URI and response type. Either way a login hint is
/// needed: the one of the query, or else the one that was pushed.
pub open spec fn authorize_begun(
    pre: StoreState,
    defaults: Seq<Seq<char>>,
    params: AuthorizeParams,
    proxy_state: Seq<char>,
    now: i64,
    result: Result<UpstreamAuthRequest, Error>,
    post: StoreState,
) -> bool {
    match params.request_uri {
        Some(uri) => post == (StoreState { par: pre.par.remove(uri@), ..pre }) && (
        match pre.par.get(uri@) {
            None => is_invalid_request(result, "invalid or expired request_uri"@),
            Some(data) => if data.expires_at < now {
                is_invalid_request(result, "request_uri expired"@)
            } else {
                source_decided(pushed_source(params, data), defaults, proxy_state, result)
            },
        }),
        None => post == pre && direct_begun(defaults, params, proxy_state, result),
    }
}

/// The client info kept while the user is at the upstream server.
pub open spec fn flow_client_info(request: UpstreamAuthRequest, expires_at: i64)
    -> DownstreamClientInfo {
    DownstreamClientInfo {
        redirect_uri: request.redirect_uri,
        state: request.client_state,
        response_type: request.response_type,
        scope: request.scope,
        expires_at,
    }
}

/// What finishing an authorization comes to, with a store that does not
/// fail: if the upstream client failed, an invalid request; otherwise the
/// client info is stored under the proxy's `state` for ten minutes, and the
/// user is sent to the upstream URL.
pub open spec fn authorize_finished(
    pre: StoreState,
    request: UpstreamAuthRequest,
    started: Result<String, String>,
    now: i64,
    result: Result<Redirect, Error>,
    post: StoreState,
) -> bool {
    match started {
        Err(reason) => is_invalid_request(result, "failed to start auth: "@ + reason@) && post
            == pre,
        Ok(url) => result matches Ok(redirect) && redirect.location == url && post
            == (StoreState {
            client_info: pre.client_info.insert(
                request.state@,
                flow_client_info(request, later(now, FLOW_LIFETIME_SECONDS)),
            ),
            ..pre
        }),
    }
}

/// A request URI is redeemed once: after an authorization was begun with
/// it, a second one with the same request URI is refused with status 400.
pub proof fn lemma_request_uri_single_use(
    pre: StoreState,
    defaults: Seq<Seq<char>>,
    first: AuthorizeParams,
    first_state: Seq<char>,
    first_now: i64,
    first_result: Result<UpstreamAuthRequest, Error>,
    between: StoreState,
    second: AuthorizeParams,
    second_state: Seq<char>,
    second_now: i64,
    second_result: Result<UpstreamAuthRequest, Error>,
    post: StoreState,
)
    requires
        first.request_uri matches Some(a) && second.request_uri matches Some(b) && a@ == b@,
        authorize_begun(pre, defaults, first, first_state, first_now, first_result, between),
        authorize_begun(between, defaults, second, second_state, second_now, second_result, post),
    ensures
        second_result matches Err(e) && e.status_of() == 400,
{
}

/// An expired request URI is refused with status 400: a pushed request
/// that is older than 90 seconds cannot begin an authorization.
pub proof fn lemma_expired_request_refused(
    pre: StoreState,
    defaults: Seq<Seq<char>>,
    params: AuthorizeParams,
    proxy_state: Seq<char>,
    created: i64,
    now: i64,
    result: Result<UpstreamAuthRequest, Error>,
    post: StoreState,
)
    requires
        params.request_uri matches Some(uri) && pre.par.contains_key(uri@)
            && pre.par[uri@].expires_at
            == later(created, crate::store::PAR_LIFETIME_SECONDS),
        now - created > 90,
        authorize_begun(pre, defaults, params, proxy_state, now, result, post),
    ensures
        result matches Err(e) && e.status_of() == 400,
{
}

/// The scopes among `tokens` that are valid, in normal form.
pub fn valid_scopes(tokens: &Vec<String>) -> (scopes: Vec<String>)
    ensures
        views(scopes@) == normal_forms(views(tokens@)),
{
    let mut scopes: Vec<String> = Vec::new();
    let mut i: usize = 0;
    let ghost all = views(tokens@);
    proof {
        assert(all.subrange(0, 0) =~= Seq::<Seq<char>>::empty());
        assert(views(scopes@) =~= Seq::<Seq<char>>::empty());
    }
    while i < tokens.len()
        invariant
            0 <= i <= tokens@.len(),
            all == views(tokens@),
            views(scopes@) == normal_forms(all.subrange(0, i as int)),
        decreases tokens@.len() - i,
    {
        let ghost before = views(scopes@);
        let ghost next = all.subrange(0, i as int + 1);
        proof {
            assert(next.drop_last() =~= all.subrange(0, i as int));
            assert(next.last() == tokens@[i as int]@);
        }
        match parse_scope(tokens[i].as_str()) {
            Some(n) => {
                scopes.push(n);
                proof {
                    assert(views(scopes@) =~= before.push(n@));
                }
            },
            None => {},
        }
        i += 1;
    }
    proof {
        assert(all.subrange(0, tokens@.len() as int) =~= all);
    }
    scopes
}

/// Checks the upstream server's callback: an upstream error is passed on
/// as an invalid request, a missing code is an invalid grant, a missing
/// state is an invalid request.
pub fn begin_return(params: CallbackParams) -> (result: Result<UpstreamCallback, Error>)
    ensures
        match params.error {
            Some(error) => is_invalid_request(result, "upstream auth failed: "@ + error@),
            None => match params.code {
                None => result matches Err(Error::InvalidGrant),
                Some(code) => match params.state {
                    None => is_invalid_request(result, "missing state"@),
                    Some(state) => result matches Ok(callback) && callback.code == code
                        && callback.state == state && callback.iss == params.iss,
                },
            },
        },
{
    if let Some(error) = params.error {
        return Err(
            Error::InvalidRequest(
                String::from_str("upstream auth failed: ").concat(error.as_str()),
            ),
        );
    }
    let code = match params.code {
        Some(c) => c,
        None => {
            return Err(Error::InvalidGrant);
        },
    };
    let state = match params.state {
        Some(s) => s,
        None => {
            return Err(Error::InvalidRequest(String::from_str("missing state")));
        },
    };
    Ok(UpstreamCallback { code, state, iss: params.iss })
}

/// Where the client is sent with its authorization code: its redirect URI
/// with the code, its own state and the proxy's issuer in the fragment,
/// each percent-encoded.
pub open spec fn redirect_location(
    redirect_uri: Seq<char>,
    code: Seq<char>,
    state: Option<String>,
    issuer: Seq<char>,
) -> Seq<char> {
    redirect_uri + "#code="@ + percent_encoded(code) + "&state="@ + percent_encoded(
        text_or_empty(state),
    ) + "&iss="@ + percent_encoded(issuer)
}

/// Builds the location to which the client is sent with its code.
pub fn build_redirect_location(
    redirect_uri: &str,
    code: &str,
    state: &Option<String>,
    issuer: &str,
) -> (location: String)
    ensures
        location@ == redirect_location(redirect_uri@, code@, *state, issuer@),
{
    let state_text = match state {
        Some(s) => percent_encode(s.as_str()),
        None => {
            proof {
                reveal_strlit("");
                assert(""@ =~= Seq::<char>::empty());
            }
            percent_encode("")
        },
    };
    String::from_str(redirect_uri).concat("#code=").concat(percent_encode(code).as_str()).concat(
        "&state=",
    ).concat(state_text.as_str()).concat("&iss=").concat(percent_encode(issuer).as_str())
}

/// The pending authorization stored for a returning user.
pub open spec fn pending_for(session: UpstreamSession, info: DownstreamClientInfo, expires_at: i64)
    -> PendingAuth {
    PendingAuth {
        account_did: session.account_did,
        upstream_session_id: session.session_id,
        redirect_uri: info.redirect_uri,
        state: info.state,
        expires_at,
    }
}

/// The store after the upstream session of a returning user and its key
/// were recorded and the flow's client info was taken out.
pub open spec fn return_recorded(
    pre: StoreState,
    session: UpstreamSession,
    jkt: Seq<char>,
    state: Seq<char>,
    post: StoreState,
) -> bool {
    let sid = session.session_id@;
    &&& post.dpop_keys.contains_key(sid)
    &&& post.dpop_keys[sid].0@ == jkt
    &&& post.dpop_keys[sid].1@ == session.dpop_key@
    &&& post.sessions == pre.sessions.insert(session.key(), session)
    &&& post.dpop_keys == pre.dpop_keys.insert(sid, post.dpop_keys[sid])
    &&& post.client_info == pre.client_info.remove(state)
    &&& post.par == pre.par
    &&& post.refresh == pre.refresh
    &&& post.active == pre.active
    &&& post.dpop_nonces == pre.dpop_nonces
    &&& post.auth_requests == pre.auth_requests
    &&& post.jkt_index == pre.jkt_index
}

/// Why a return is refused before any store is asked, if it is: the
/// upstream client failed, or the session's key has no thumbprint.
pub open spec fn exchange_fault(exchanged: Result<UpstreamSession, String>) -> Option<Seq<char>> {
    match exchanged {
        Err(reason) => Some("failed to exchange code: "@ + reason@),
        Ok(session) => match thumbprint_of(session.dpop_key@) {
            ThumbprintOutcome::Digest(_) => None,
            other => Some(fault_text(other)),
        },
    }
}

/// What finishing a return comes to, with a store that does not fail. If
/// the upstream client failed, or the session's key has no thumbprint, the
/// request is invalid and nothing is stored. Otherwise the session and its
/// key are recorded and the client info of the flow is taken out; it must
/// exist, and the code must be new; then the pending authorization is
/// stored under the code for ten minutes, and the client is sent to its
/// redirect URI with the code.
pub open spec fn return_finished(
    pre: StoreState,
    issuer: Seq<char>,
    state: Seq<char>,
    exchanged: Result<UpstreamSession, String>,
    code: Seq<char>,
    now: i64,
    result: Result<Redirect, Error>,
    post: StoreState,
) -> bool {
    match exchange_fault(exchanged) {
        Some(reason) => is_invalid_request(result, reason) && post == pre,
        None => {
            let session = exchanged->Ok_0;
            let jkt = thumbprint_of(session.dpop_key@)->Digest_0;
            return_recorded(pre, session, jkt, state, post) && (match pre.client_info.get(state) {
                None => is_invalid_request(result, "session not found"@) && post.pending
                    == pre.pending,
                Some(info) => if pre.pending.contains_key(code) {
                    is_storage_failure(result) && post.pending == pre.pending
                } else {
                    (result matches Ok(redirect) && redirect.location@ == redirect_location(
                        info.redirect_uri@,
                        code,
                        info.state,
                        issuer,
                    )) && post.pending == pre.pending.insert(
                        code,
                        pending_for(session, info, later(now, FLOW_LIFETIME_SECONDS)),
                    )
                },
            })
        },
    }
}

impl<S: OAuthSessionStore, K: KeyStore, N: NonceStore> OAuthProxyServer<S, K, N> {
    /// Begins an authorization at `now`, with `proxy_state` as the
    /// proxy's own `state`: redeems the request URI, if there is one, and
    /// decides what to ask of the upstream authorization client. Without a
    /// request URI no store is asked.
    pub fn begin_authorize_at(
        &mut self,
        params: AuthorizeParams,
        proxy_state: &str,
        now: i64,
    ) -> (result: Result<UpstreamAuthRequest, Error>)
        ensures
            final(self).config == old(self).config,
            final(self).nonce_store == old(self).nonce_store,
            final(self).session_store.never_fails() == old(self).session_store.never_fails(),
            old(self).session_store.never_fails() ==> authorize_begun(
                old(self).session_store.state(),
                views(old(self).config.scope@),
                params,
                proxy_state@,
                now,
                result,
                final(self).session_store.state(),
            ),
            is_store_failure(result) || (authorize_begun(
                old(self).session_store.state(),
                views(old(self).config.scope@),
                params,
                proxy_state@,
                now,
                result,
                final(self).session_store.state(),
            )),
            params.request_uri is None ==> final(self).session_store == old(self).session_store
                && direct_begun(views(old(self).config.scope@), params, proxy_state@, result),
    {
        let source = match params.request_uri {
            Some(uri) => {
                let found = match self.session_store.consume_par_data(uri.as_str()) {
                    Ok(f) => f,
                    Err(e) => {
                        return Err(e);
                    },
                };
                let data = match found {
                    Some(d) => d,
                    None => {
                        return invalid_request("invalid or expired request_uri");
                    },
                };
                if data.expires_at < now {
                    return invalid_request("request_uri expired");
                }
                AuthorizeSource {
                    redirect_uri: data.redirect_uri,
                    response_type: data.response_type,
                    state: data.state,
                    scope: data.scope,
                    login_hint: if params.login_hint.is_some() {
                        params.login_hint
                    } else {
                        data.login_hint
                    },
                }
            },
            None => {
                match (params.client_id, params.redirect_uri, params.response_type) {
                    (None, _, _) => {
                        return invalid_request("missing client_id");
                    },
                    (Some(_), None, _) => {
                        return invalid_request("missing redirect_uri");
                    },
                    (Some(_), Some(_), None) => {
                        return invalid_request("missing response_type");
                    },
                    (Some(_), Some(redirect_uri), Some(response_type)) => AuthorizeSource {
                        redirect_uri,
                        response_type,
                        state: params.state,
                        scope: params.scope,
                        login_hint: params.login_hint,
                    },
                }
            },
        };
        let user_identifier = match source.login_hint {
            Some(hint) => hint,
            None => {
                return invalid_request("missing login_hint");
            },
        };
        let scopes = match &source.scope {
            Some(s) => valid_scopes(&split_spaces(s.as_str())),
            None => copy_texts(&self.config.scope),
        };
        Ok(
            UpstreamAuthRequest {
                user_identifier,
                scopes,
                state: String::from_str(proxy_state),
                redirect_uri: source.redirect_uri,
                client_state: source.state,
                response_type: source.response_type,
                scope: source.scope,
            },
        )
    }

    /// Begins an authorization now, with a fresh random `state`. Whatever
    /// the clock reads and whatever is drawn, the result is the one that
    /// [`OAuthProxyServer::begin_authorize_at`] gives for them.
    pub fn handle_authorize(&mut self, params: AuthorizeParams) -> (result: Result<
        UpstreamAuthRequest,
        Error,
    >)
        ensures
            final(self).config == old(self).config,
            final(self).nonce_store == old(self).nonce_store,
            final(self).session_store.never_fails() == old(self).session_store.never_fails(),
            old(self).session_store.never_fails() ==> exists|proxy_state: Seq<char>, now: i64|
                proxy_state.len() == 32 && all_base62(proxy_state) && #[trigger] authorize_begun(
                    old(self).session_store.state(),
                    views(old(self).config.scope@),
                    params,
                    proxy_state,
                    now,
                    result,
                    final(self).session_store.state(),
                ),
            is_store_failure(result) || (exists|proxy_state: Seq<char>, now: i64|
                proxy_state.len() == 32 && all_base62(proxy_state) && #[trigger] authorize_begun(
                    old(self).session_store.state(),
                    views(old(self).config.scope@),
                    params,
                    proxy_state,
                    now,
                    result,
                    final(self).session_store.state(),
                )),
            params.request_uri is None ==> final(self).session_store == old(self).session_store
                && exists|proxy_state: Seq<char>|
                proxy_state.len() == 32 && all_base62(proxy_state) && #[trigger] direct_begun(
                    views(old(self).config.scope@),
                    params,
                    proxy_state,
                    result,
                ),
    {
        let proxy_state = generate_random_string(32);
        let now = unix_now();
        let result = self.begin_authorize_at(params, proxy_state.as_str(), now);
        proof {
            if old(self).session_store.never_fails() {
                assert(authorize_begun(
                    old(self).session_store.state(),
                    views(old(self).config.scope@),
                    params,
                    proxy_state@,
                    now,
                    result,
                    self.session_store.state(),
                ));
            }
            if params.request_uri is None {
                assert(direct_begun(
                    views(old(self).config.scope@),
                    params,
                    proxy_state@,
                    result,
                ));
            }
        }
        result
    }

    /// Finishes an authorization at `now` with what the upstream
    /// authorization client returned: the URL to send the user to, or the
    /// reason of its failure.
    pub fn finish_authorize_at(
        &mut self,
        request: UpstreamAuthRequest,
        started: Result<String, String>,
        now: i64,
    ) -> (result: Result<Redirect, Error>)
        ensures
            final(self).config == old(self).config,
            final(self).nonce_store == old(self).nonce_store,
            final(self).session_store.never_fails() == old(self).session_store.never_fails(),
            old(self).session_store.never_fails() ==> authorize_finished(
                old(self).session_store.state(),
                request,
                started,
                now,
                result,
                final(self).session_store.state(),
            ),
            is_store_failure(result) || (authorize_finished(
                old(self).session_store.state(),
                request,
                started,
                now,
                result,
                final(self).session_store.state(),
            )),
            started matches Err(reason) ==> is_invalid_request(
                result,
                "failed to start auth: "@ + reason@,
            ) && final(self).session_store == old(self).session_store,
    {
        let url = match started {
            Ok(u) => u,
            Err(reason) => {
                return Err(
                    Error::InvalidRequest(
                        String::from_str("failed to start auth: ").concat(reason.as_str()),
                    ),
                );
            },
        };
        let info = DownstreamClientInfo {
            redirect_uri: request.redirect_uri,
            state: request.client_state,
            response_type: request.response_type,
            scope: request.scope,
            expires_at: add_seconds(now, FLOW_LIFETIME_SECONDS),
        };
        match self.session_store.store_downstream_client_info(request.state.as_str(), info) {
            Ok(()) => Ok(Redirect { location: url }),
            Err(e) => Err(e),
        }
    }

    /// Finishes an authorization now. Whatever the clock reads, the result
    /// is the one that [`OAuthProxyServer::finish_authorize_at`] gives at
    /// that instant.
    pub fn finish_authorize(
        &mut self,
        request: UpstreamAuthRequest,
        started: Result<String, String>,
    ) -> (result: Result<Redirect, Error>)
        ensures
            final(self).config == old(self).config,
            final(self).nonce_store == old(self).nonce_store,
            final(self).session_store.never_fails() == old(self).session_store.never_fails(),
            old(self).session_store.never_fails() ==> exists|now: i64| #[trigger]
                authorize_finished(
                    old(self).session_store.state(),
                    request,
                    started,
                    now,
                    result,
                    final(self).session_store.state(),
                ),
            is_store_failure(result) || (exists|now: i64| #[trigger]
                authorize_finished(
                    old(self).session_store.state(),
                    request,
                    started,
                    now,
                    result,
                    final(self).session_store.state(),
                )),
            started matches Err(reason) ==> is_invalid_request(
                result,
                "failed to start auth: "@ + reason@,
            ) && final(self).session_store == old(self).session_store,
    {
        let now = unix_now();
        let result = self.finish_authorize_at(request, started, now);
        proof {
            if old(self).session_store.never_fails() {
                assert(authorize_finished(
                    old(self).session_store.state(),
                    request,
                    started,
                    now,
                    result,
                    self.session_store.state(),
                ));
            }
        }
        result
    }

    /// Finishes a return at `now` with what the upstream authorization
    /// client returned for the callback: the upstream session, or the
    /// reason of its failure. `code` is the downstream authorization code
    /// to hand out.
    pub fn finish_return_at(
        &mut self,
        state: &str,
        exchanged: Result<UpstreamSession, String>,
        code: &str,
        now: i64,
    ) -> (result: Result<Redirect, Error>)
        ensures
            final(self).config == old(self).config,
            final(self).nonce_store == old(self).nonce_store,
            final(self).session_store.never_fails() == old(self).session_store.never_fails(),
            old(self).session_store.never_fails() ==> return_finished(
                old(self).session_store.state(),
                old(self).base(),
                state@,
                exchanged,
                code@,
                now,
                result,
                final(self).session_store.state(),
            ),
            is_store_failure(result) || (return_finished(
                old(self).session_store.state(),
                old(self).base(),
                state@,
                exchanged,
                code@,
                now,
                result,
                final(self).session_store.state(),
            )),
            exchange_fault(exchanged) matches Some(reason) ==> is_invalid_request(result, reason)
                && final(self).session_store == old(self).session_store,
    {
        let session = match exchanged {
            Ok(s) => s,
            Err(reason) => {
                return Err(
                    Error::InvalidRequest(
                        String::from_str("failed to exchange code: ").concat(reason.as_str()),
                    ),
                );
            },
        };
        let jkt = match compute_jwk_thumbprint(&session.dpop_key) {
            Ok(t) => t,
            Err(e) => {
                return Err(e);
            },
        };
        let account_did = session.account_did.clone();
        let session_id = session.session_id.clone();
        let key = session.dpop_key.duplicate();
        match self.session_store.upsert_oauth_session(session) {
            Ok(()) => {},
            Err(e) => {
                return Err(e);
            },
        }
        match self.session_store.store_session_dpop_key(session_id.as_str(), jkt, key) {
            Ok(()) => {},
            Err(e) => {
                return Err(e);
            },
        }
        let found = match self.session_store.consume_downstream_client_info(state) {
            Ok(f) => f,
            Err(e) => {
                return Err(e);
            },
        };
        let info = match found {
            Some(i) => i,
            None => {
                return Err(Error::InvalidRequest(String::from_str("session not found")));
            },
        };
        let location = build_redirect_location(
            info.redirect_uri.as_str(),
            code,
            &info.state,
            self.config.base_url(),
        );
        let pending = PendingAuth {
            account_did,
            upstream_session_id: session_id,
            redirect_uri: info.redirect_uri,
            state: info.state,
            expires_at: add_seconds(now, FLOW_LIFETIME_SECONDS),
        };
        match self.session_store.store_pending_auth(code, pending) {
            Ok(()) => Ok(Redirect { location }),
            Err(e) => Err(e),
        }
    }

    /// Finishes a return now, with a fresh random authorization code.
    /// Whatever the clock reads and whatever is drawn, the result is the
    /// one that [`OAuthProxyServer::finish_return_at`] gives for them.
    pub fn handle_return(
        &mut self,
        state: &str,
        exchanged: Result<UpstreamSession, String>,
    ) -> (result: Result<Redirect, Error>)
        ensures
            final(self).config == old(self).config,
            final(self).nonce_store == old(self).nonce_store,
            final(self).session_store.never_fails() == old(self).session_store.never_fails(),
            old(self).session_store.never_fails() ==> exists|code: Seq<char>, now: i64|
                code.len() == 32 && all_base62(code) && #[trigger] return_finished(
                    old(self).session_store.state(),
                    old(self).base(),
                    state@,
                    exchanged,
                    code,
                    now,
                    result,
                    final(self).session_store.state(),
                ),
            is_store_failure(result) || (exists|code: Seq<char>, now: i64|
                code.len() == 32 && all_base62(code) && #[trigger] return_finished(
                    old(self).session_store.state(),
                    old(self).base(),
                    state@,
                    exchanged,
                    code,
                    now,
                    result,
                    final(self).session_store.state(),
                )),
            exchange_fault(exchanged) matches Some(reason) ==> is_invalid_request(result, reason)
                && final(self).session_store == old(self).session_store,
    {
        let code = generate_random_string(32);
        let now = unix_now();
        let result = self.finish_return_at(state, exchanged, code.as_str(), now);
        proof {
            if old(self).session_store.never_fails() {
                assert(return_finished(
                    old(self).session_store.state(),
                    old(self).base(),
                    state@,
                    exchanged,
                    code@,
                    now,
                    result,
                    self.session_store.state(),
                ));
            }
        }
        result
    }
}

} // verus!
