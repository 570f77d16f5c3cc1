//! Pushed authorization requests: `POST /oauth/par`.

use crate::clock::{add_seconds, later, unix_now};
use crate::dpop::{
    answers_with, challenge_answerable, lemma_challenge_answered, parsed_proof, proof_outcome,
    replay_key, store_reached, verify_at, MAX_FUTURE_SKEW_SECONDS, MAX_PROOF_AGE_SECONDS, NonceMode,
    OptionsView, ProofOutcome, VerifyOptions,
};
use crate::error::{invalid_request, shows_fault, Error, RequestFault};
use crate::json::{
    integer_text, json_quoted, member_views, object_text, string_member, unsigned_member,
    write_object,
};
use crate::nonce::{HmacConfig, HmacView};
use crate::random::{all_base62, generate_random_string};
use crate::server::OAuthProxyServer;
use crate::store::{
    is_storage_failure, is_store_failure, DownstreamClientInfo, FLOW_LIFETIME_SECONDS, KeyStore,
    NonceStore, OAuthSessionStore, PAR_LIFETIME_SECONDS, PARData, StoreState,
};
use crate::text::{contains_text, copy_optional, has_substring, same_text, text_view};
use vstd::prelude::*;
use vstd::string::*;

verus! {

/// The parameters of a pushed authorization request.
#[derive(Debug)]
pub struct PARRequest {
    pub client_id: String,
    pub redirect_uri: String,
    pub response_type: String,
    pub state: Option<String>,
    pub scope: Option<String>,
    pub code_challenge: Option<String>,
    pub code_challenge_method: Option<String>,
    pub login_hint: Option<String>,
}

/// The answer to a pushed authorization request, sent with status 201.
#[derive(Debug)]
pub struct ParResponse {
    pub request_uri: String,
    /// Seconds for which the request URI can be redeemed.
    pub expires_in: u64,
}

/// How the body of a request is to be read.
#[derive(Debug, Clone, Copy, PartialEq, Eq)]
pub enum BodyFormat {
    Json,
    Form,
    /// JSON first; if that fails, form encoding.
    JsonThenForm,
}

/// How the body of a pushed authorization request is read: as JSON when
/// the content type names `application/json`, as a form when it names
/// anything else, and as either when there is none.
pub open spec fn par_body_format_of(content_type: Option<Seq<char>>) -> BodyFormat {
    match content_type {
        Some(t) => if has_substring(t, "application/json"@) {
            BodyFormat::Json
        } else {
            BodyFormat::Form
        },
        None => BodyFormat::JsonThenForm,
    }
}

/// What is wrong with the parameters of a pushed authorization request,
/// if anything: the first of a missing client identifier, a missing
/// redirect URI, a missing code challenge, a challenge method other than
/// `S256`.
pub open spec fn par_fault(params: PARRequest) -> Option<Seq<char>> {
    if params.client_id@.len() == 0 {
        Some("missing client_id"@)
    } else if params.redirect_uri@.len() == 0 {
        Some("missing redirect_uri"@)
    } else if params.code_challenge is None {
        Some("missing code_challenge"@)
    } else if text_view(params.code_challenge_method) != Some("S256"@) {
        Some("only S256 code_challenge_method supported"@)
    } else {
        None
    }
}

/// The options under which the proof of a pushed authorization request is
/// verified: a nonce is required, at most 300 seconds old and bound to the
/// URL, the method, the key and the client.
pub open spec fn par_options(secret: Seq<u8>, client_id: Seq<char>) -> OptionsView {
    OptionsView {
        hmac: Some(
            HmacView {
                secret,
                max_age_seconds: 300,
                bind_htu_htm: true,
                bind_jkt: true,
                bind_client: true,
            },
        ),
        client_id: Some(client_id),
    }
}

/// The request URI with the given random part.
pub open spec fn request_uri_for(suffix: Seq<char>) -> Seq<char> {
    "urn:ietf:params:oauth:request_uri:"@ + suffix
}

/// Whether a stored record holds the parameters of a request, the
/// thumbprint of the client's key and the time of expiry.
pub open spec fn is_par_record(data: PARData, params: PARRequest, jkt: Seq<char>, expires_at: i64)
    -> bool {
    &&& data.client_id == params.client_id
    &&& data.redirect_uri == params.redirect_uri
    &&& data.response_type == params.response_type
    &&& data.state == params.state
    &&& data.scope == params.scope
    &&& data.code_challenge == params.code_challenge
    &&& data.code_challenge_method == params.code_challenge_method
    &&& data.login_hint == params.login_hint
    &&& data.downstream_dpop_jkt@ == jkt
    &&& data.expires_at == expires_at
}

/// The client info kept for a pushed authorization request.
pub open spec fn par_client_info(params: PARRequest, expires_at: i64) -> DownstreamClientInfo {
    DownstreamClientInfo {
        redirect_uri: params.redirect_uri,
        state: params.state,
        response_type: params.response_type,
        scope: params.scope,
        expires_at,
    }
}

/// Whether an error reports the rejection of a proof of the given kind.
pub open spec fn rejection_shown(error: Error, outcome: ProofOutcome) -> bool {
    match outcome {
        ProofOutcome::Verified(_) => false,
        ProofOutcome::MalformedProof => error is DpopInvalid,
        ProofOutcome::BadSignature => error is DpopInvalid,
        ProofOutcome::AthMismatch => error is DpopInvalid,
        ProofOutcome::HtmMismatch => error is DpopMethodMismatch,
        ProofOutcome::HtuMismatch => error is DpopUrlMismatch,
        ProofOutcome::ExpiredProof => error is DpopExpired,
        ProofOutcome::FutureProof => error is DpopExpired,
        ProofOutcome::UseDpopNonce => error is DpopNonceRequired,
        ProofOutcome::Replay => error is DpopNonceReused,
    }
}

/// Why a pushed authorization request is refused before its proof is
/// looked at, if it is: the proof is missing, or the parameters are faulty.
pub open spec fn par_early_fault(dpop: Option<Seq<char>>, params: PARRequest) -> Option<
    RequestFault,
> {
    if dpop is None {
        Some(RequestFault::ProofRequired)
    } else {
        match par_fault(params) {
            Some(reason) => Some(RequestFault::Invalid(reason)),
            None => None,
        }
    }
}

/// What verifying the proof of a pushed authorization request at `now`
/// comes to, with the identifiers in `used` seen before.
pub open spec fn par_proof_outcome(
    used: Map<Seq<char>, i64>,
    secret: Seq<u8>,
    base: Seq<char>,
    proof: Seq<char>,
    params: PARRequest,
    now: i64,
) -> ProofOutcome {
    proof_outcome(
        proof,
        base + "/oauth/par"@,
        "POST"@,
        None,
        par_options(secret, params.client_id@),
        now,
        used,
    )
}

/// Whether the nonce of a challenge, if `result` is one, answers it at
/// `now`: a proof by the same key for the same request that carries it
/// finds its nonce in order.
pub open spec fn par_challenge_in_order(
    secret: Seq<u8>,
    base: Seq<char>,
    proof: Seq<char>,
    params: PARRequest,
    now: i64,
    result: Result<ParResponse, Error>,
) -> bool {
    result matches Err(Error::DpopNonceRequired(nonce)) ==> parsed_proof(proof) matches Ok(read)
        && challenge_answerable(
        par_options(secret, params.client_id@),
        nonce@,
        now,
        base + "/oauth/par"@,
        "POST"@,
        read.jkt,
    )
}

/// What a pushed authorization request comes to, with stores that do not
/// fail. Without a proof the request is refused; with faulty parameters it
/// is invalid; with a proof that is not accepted the rejection is reported
/// and nothing is stored, and where the rejection is a challenge, its nonce
/// answers it. Otherwise the proof's identifier is recorded, and
/// unless the request URI is taken, the request is stored under it for 90
/// seconds, the client info is stored under the thumbprint of the client's
/// key for ten minutes, and the request URI is returned.
pub open spec fn par_handled(
    pre: StoreState,
    used: Map<Seq<char>, i64>,
    secret: Seq<u8>,
    base: Seq<char>,
    dpop: Option<Seq<char>>,
    params: PARRequest,
    suffix: Seq<char>,
    now: i64,
    result: Result<ParResponse, Error>,
    post: StoreState,
    post_used: Map<Seq<char>, i64>,
) -> bool {
    let uri = request_uri_for(suffix);
    let expires_at = later(now, PAR_LIFETIME_SECONDS);
    match par_early_fault(dpop, params) {
        Some(fault) => shows_fault(result, fault) && post == pre && post_used == used,
        None => match par_proof_outcome(used, secret, base, dpop->0, params, now) {
            ProofOutcome::Verified(v) => post_used == used.insert(replay_key(v.jti), now) && (
            if pre.par.contains_key(uri) {
                is_storage_failure(result) && post == pre
            } else {
                &&& result matches Ok(r) && r.request_uri@ == uri && r.expires_in == 90
                &&& post.par.contains_key(uri)
                &&& is_par_record(post.par[uri], params, v.jkt, expires_at)
                &&& post == (StoreState {
                    par: pre.par.insert(uri, post.par[uri]),
                    client_info: pre.client_info.insert(
                        v.jkt,
                        par_client_info(params, later(now, FLOW_LIFETIME_SECONDS)),
                    ),
                    ..pre
                })
            }),
            other => (result matches Err(e) && rejection_shown(e, other)) && post == pre
                && post_used == used && par_challenge_in_order(
                secret,
                base,
                dpop->0,
                params,
                now,
                result,
            ),
        },
    }
}

/// What a pushed authorization request comes to, whatever the stores do.
/// A request with an early fault is refused. A store can fail only where
/// it was asked: once the proof was in order but for the question of a
/// replay. Everything else is as with stores that do not fail.
pub open spec fn par_answered(
    pre: StoreState,
    used: Map<Seq<char>, i64>,
    secret: Seq<u8>,
    base: Seq<char>,
    dpop: Option<Seq<char>>,
    params: PARRequest,
    suffix: Seq<char>,
    now: i64,
    result: Result<ParResponse, Error>,
    post: StoreState,
    post_used: Map<Seq<char>, i64>,
) -> bool {
    ||| par_handled(pre, used, secret, base, dpop, params, suffix, now, result, post, post_used)
    ||| is_store_failure(result) && par_early_fault(dpop, params) is None && store_reached(
        par_proof_outcome(used, secret, base, dpop->0, params, now),
    )
}

/// A challenge can be answered: after a pushed authorization request was
/// challenged for its nonce at `now`, the same request is accepted at `at`
/// with a proof by the same key that carries the nonce of the challenge, as
/// long as the nonce is at most 300 seconds old, the proof is fresh at `at`,
/// its identifier was not seen before and the request URI is not taken.
pub proof fn lemma_par_challenge_answered(
    pre: StoreState,
    used: Map<Seq<char>, i64>,
    secret: Seq<u8>,
    base: Seq<char>,
    params: PARRequest,
    first: Seq<char>,
    first_suffix: Seq<char>,
    now: i64,
    first_result: Result<ParResponse, Error>,
    between: StoreState,
    used_between: Map<Seq<char>, i64>,
    second: Seq<char>,
    second_suffix: Seq<char>,
    at: i64,
    second_result: Result<ParResponse, Error>,
    post: StoreState,
    used_after: Map<Seq<char>, i64>,
)
    requires
        par_handled(
            pre,
            used,
            secret,
            base,
            Some(first),
            params,
            first_suffix,
            now,
            first_result,
            between,
            used_between,
        ),
        first_result matches Err(Error::DpopNonceRequired(nonce)) && parsed_proof(first) matches Ok(
            a,
        ) && parsed_proof(second) matches Ok(b) && answers_with(b, a, nonce@) && at - b.iat
            <= MAX_PROOF_AGE_SECONDS && b.iat - at <= MAX_FUTURE_SKEW_SECONDS
            && !used_between.contains_key(replay_key(b.jti)),
        0 <= at - now <= 300,
        !between.par.contains_key(request_uri_for(second_suffix)),
        par_handled(
            between,
            used_between,
            secret,
            base,
            Some(second),
            params,
            second_suffix,
            at,
            second_result,
            post,
            used_after,
        ),
    ensures
        second_result matches Ok(response) && response.request_uri@ == request_uri_for(
            second_suffix,
        ) && response.expires_in == 90,
        post.par.contains_key(request_uri_for(second_suffix)),
{
    let a = parsed_proof(first)->Ok_0;
    let b = parsed_proof(second)->Ok_0;
    let nonce = first_result->Err_0->DpopNonceRequired_0@;
    let options = par_options(secret, params.client_id@);
    lemma_challenge_answered(
        a,
        base + "/oauth/par"@,
        "POST"@,
        None,
        options,
        now,
        used,
        nonce,
        b,
        at,
        used_between,
    );
}

/// An identifier pushes at most one request: after a pushed authorization
/// request succeeded with a proof, a second one does not succeed with the
/// same proof, nor with any other that carries the same identifier, as long
/// as the record of the identifier is kept. Where nothing but the replay
/// speaks against the second request, it is refused as a reused proof.
pub proof fn lemma_par_proof_single_use(
    pre: StoreState,
    used: Map<Seq<char>, i64>,
    secret: Seq<u8>,
    base: Seq<char>,
    first_proof: Seq<char>,
    first: PARRequest,
    first_suffix: Seq<char>,
    first_now: i64,
    first_result: Result<ParResponse, Error>,
    between: StoreState,
    used_between: Map<Seq<char>, i64>,
    second_proof: Seq<char>,
    second: PARRequest,
    second_suffix: Seq<char>,
    second_now: i64,
    second_result: Result<ParResponse, Error>,
    post: StoreState,
    used_after: Map<Seq<char>, i64>,
)
    requires
        par_handled(
            pre,
            used,
            secret,
            base,
            Some(first_proof),
            first,
            first_suffix,
            first_now,
            first_result,
            between,
            used_between,
        ),
        first_result is Ok,
        parsed_proof(first_proof) matches Ok(a) && (parsed_proof(second_proof) matches Ok(b)
            ==> b.jti == a.jti),
        par_handled(
            between,
            used_between,
            secret,
            base,
            Some(second_proof),
            second,
            second_suffix,
            second_now,
            second_result,
            post,
            used_after,
        ),
    ensures
        second_result is Err,
        par_fault(second) is None && par_proof_outcome(
            used,
            secret,
            base,
            second_proof,
            second,
            second_now,
        ) is Verified ==> second_result matches Err(Error::DpopNonceReused),
{
}

/// Decides how the body of a pushed authorization request is read.
pub fn par_body_format(content_type: Option<&str>) -> (format: BodyFormat)
    ensures
        format == par_body_format_of(crate::text::optional_view(content_type)),
{
    match content_type {
        Some(t) => {
            if contains_text(t, "application/json") {
                BodyFormat::Json
            } else {
                BodyFormat::Form
            }
        },
        None => BodyFormat::JsonThenForm,
    }
}

/// Checks the parameters of a pushed authorization request.
pub fn check_par_request(params: &PARRequest) -> (result: Result<(), Error>)
    ensures
        match result {
            Ok(()) => par_fault(*params) is None,
            Err(e) => e matches Error::InvalidRequest(m) && par_fault(*params) == Some(m@),
        },
{
    if params.client_id.as_str().unicode_len() == 0 {
        return invalid_request("missing client_id");
    }
    if params.redirect_uri.as_str().unicode_len() == 0 {
        return invalid_request("missing redirect_uri");
    }
    if params.code_challenge.is_none() {
        return invalid_request("missing code_challenge");
    }
    let s256 = match &params.code_challenge_method {
        Some(m) => same_text(m.as_str(), "S256"),
        None => false,
    };
    if !s256 {
        return invalid_request("only S256 code_challenge_method supported");
    }
    Ok(())
}

impl ParResponse {
    /// The status the response is sent with: 201, created.
    pub fn status_code(&self) -> (status: u16)
        ensures
            status == 201,
    {
        201
    }

    /// The JSON text of the response.
    pub open spec fn json_text(self) -> Seq<char> {
        object_text(
            seq![
                ("request_uri"@, json_quoted(self.request_uri@)),
                ("expires_in"@, integer_text(self.expires_in as int)),
            ],
        )
    }

    /// Writes the response as JSON.
    pub fn to_json(&self) -> (text: String)
        ensures
            text@ == self.json_text(),
    {
        let members = vec![
            string_member("request_uri", self.request_uri.as_str()),
            unsigned_member("expires_in", self.expires_in),
        ];
        proof {
            assert(member_views(members@) =~= seq![
                ("request_uri"@, json_quoted(self.request_uri@)),
                ("expires_in"@, integer_text(self.expires_in as int)),
            ]);
        }
        write_object(&members)
    }
}

impl<S: OAuthSessionStore, K: KeyStore, N: NonceStore> OAuthProxyServer<S, K, N> {
    /// Handles a pushed authorization request at `now`, with `suffix` as
    /// the random part of the request URI. What is decided before a store
    /// is asked holds whatever the stores do; a store can fail only once
    /// the proof was in order but for the question of a replay.
    pub fn handle_par_at(
        &mut self,
        dpop_proof: Option<&str>,
        params: PARRequest,
        suffix: &str,
        now: i64,
    ) -> (result: Result<ParResponse, Error>)
        ensures
            final(self).config == old(self).config,
            final(self).session_store.never_fails() == old(self).session_store.never_fails(),
            final(self).nonce_store.never_fails() == old(self).nonce_store.never_fails(),
            old(self).session_store.never_fails() && old(self).nonce_store.never_fails()
                ==> par_handled(
                old(self).session_store.state(),
                old(self).nonce_store.used(),
                old(self).config.dpop_nonce_hmac_secret@,
                old(self).base(),
                crate::text::optional_view(dpop_proof),
                params,
                suffix@,
                now,
                result,
                final(self).session_store.state(),
                final(self).nonce_store.used(),
            ),
            par_answered(
                old(self).session_store.state(),
                old(self).nonce_store.used(),
                old(self).config.dpop_nonce_hmac_secret@,
                old(self).base(),
                crate::text::optional_view(dpop_proof),
                params,
                suffix@,
                now,
                result,
                final(self).session_store.state(),
                final(self).nonce_store.used(),
            ),
            par_early_fault(crate::text::optional_view(dpop_proof), params) is Some ==> {
                &&& final(self).session_store == old(self).session_store
                &&& final(self).nonce_store == old(self).nonce_store
            },
    {
        let proof_text = match dpop_proof {
            Some(p) => p,
            None => {
                return Err(Error::DpopProofRequired);
            },
        };
        match check_par_request(&params) {
            Ok(()) => {},
            Err(e) => {
                return Err(e);
            },
        }
        let htu = String::from_str(self.config.base_url()).concat("/oauth/par");
        let options = VerifyOptions {
            nonce_mode: NonceMode::Hmac(
                HmacConfig {
                    secret: self.config.dpop_nonce_hmac_secret.clone(),
                    max_age_seconds: 300,
                    bind_htu_htm: true,
                    bind_jkt: true,
                    bind_client: true,
                },
            ),
            client_id: Some(params.client_id.clone()),
        };
        assert(options@ == par_options(self.config.dpop_nonce_hmac_secret@, params.client_id@));
        let verified = match verify_at(
            &mut self.nonce_store,
            proof_text,
            htu.as_str(),
            "POST",
            None,
            &options,
            now,
        ) {
            Ok(v) => v,
            Err(e) => {
                return Err(e.into_error());
            },
        };
        let request_uri = String::from_str("urn:ietf:params:oauth:request_uri:").concat(suffix);
        let expires_at = add_seconds(now, PAR_LIFETIME_SECONDS);
        let info = DownstreamClientInfo {
            redirect_uri: params.redirect_uri.clone(),
            state: copy_optional(&params.state),
            response_type: params.response_type.clone(),
            scope: copy_optional(&params.scope),
            expires_at: add_seconds(now, FLOW_LIFETIME_SECONDS),
        };
        let jkt = verified.jkt;
        let data = PARData {
            client_id: params.client_id,
            redirect_uri: params.redirect_uri,
            response_type: params.response_type,
            state: params.state,
            scope: params.scope,
            code_challenge: params.code_challenge,
            code_challenge_method: params.code_challenge_method,
            login_hint: params.login_hint,
            downstream_dpop_jkt: jkt.clone(),
            expires_at,
        };
        match self.session_store.store_par_data(request_uri.as_str(), data) {
            Ok(()) => {},
            Err(e) => {
                return Err(e);
            },
        }
        match self.session_store.store_downstream_client_info(jkt.as_str(), info) {
            Ok(()) => {},
            Err(e) => {
                return Err(e);
            },
        }
        Ok(ParResponse { request_uri, expires_in: 90 })
    }

    /// Handles a pushed authorization request now, with a fresh random
    /// request URI. Whatever the clock reads and whatever is drawn, the
    /// result is the one that [`OAuthProxyServer::handle_par_at`] gives for
    /// them.
    pub fn handle_par(&mut self, dpop_proof: Option<&str>, params: PARRequest) -> (result: Result<
        ParResponse,
        Error,
    >)
        ensures
            final(self).config == old(self).config,
            final(self).session_store.never_fails() == old(self).session_store.never_fails(),
            final(self).nonce_store.never_fails() == old(self).nonce_store.never_fails(),
            old(self).session_store.never_fails() && old(self).nonce_store.never_fails()
                ==> exists|suffix: Seq<char>, now: i64|
                suffix.len() == 32 && all_base62(suffix) && #[trigger] par_handled(
                    old(self).session_store.state(),
                    old(self).nonce_store.used(),
                    old(self).config.dpop_nonce_hmac_secret@,
                    old(self).base(),
                    crate::text::optional_view(dpop_proof),
                    params,
                    suffix,
                    now,
                    result,
                    final(self).session_store.state(),
                    final(self).nonce_store.used(),
                ),
            exists|suffix: Seq<char>, now: i64|
                suffix.len() == 32 && all_base62(suffix) && #[trigger] par_answered(
                    old(self).session_store.state(),
                    old(self).nonce_store.used(),
                    old(self).config.dpop_nonce_hmac_secret@,
                    old(self).base(),
                    crate::text::optional_view(dpop_proof),
                    params,
                    suffix,
                    now,
                    result,
                    final(self).session_store.state(),
                    final(self).nonce_store.used(),
                ),
            par_early_fault(crate::text::optional_view(dpop_proof), params) is Some ==> {
                &&& final(self).session_store == old(self).session_store
                &&& final(self).nonce_store == old(self).nonce_store
            },
    {
        let suffix = generate_random_string(32);
        let now = unix_now();
        let result = self.handle_par_at(dpop_proof, params, suffix.as_str(), now);
        proof {
            if old(self).session_store.never_fails() && old(self).nonce_store.never_fails() {
                assert(par_handled(
                    old(self).session_store.state(),
                    old(self).nonce_store.used(),
                    old(self).config.dpop_nonce_hmac_secret@,
                    old(self).base(),
                    crate::text::optional_view(dpop_proof),
                    params,
                    suffix@,
                    now,
                    result,
                    self.session_store.state(),
                    self.nonce_store.used(),
                ));
            }
            assert(par_answered(
                old(self).session_store.state(),
                old(self).nonce_store.used(),
                old(self).config.dpop_nonce_hmac_secret@,
                old(self).base(),
                crate::text::optional_view(dpop_proof),
                params,
                suffix@,
                now,
                result,
                self.session_store.state(),
                self.nonce_store.used(),
            ));
        }
        result
    }
}

} // verus!
