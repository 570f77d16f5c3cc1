//! The OAuth server of the proxy: the downstream authorization server and
//! the authenticated forwarding of requests, over abstract stores.
//!
//! Each endpoint is a function from the request's plain values and the
//! stores to the response's plain values. Where an endpoint needs the
//! network (the upstream authorization client, the upstream server), it is
//! split at that point: the caller performs the exchange and hands its
//! result to the next function.
//!
//! The contract of an endpoint gives its exact outcome over the content of
//! the stores. A store may fail; the endpoint then returns the store's
//! error, and nothing more is promised of that request.

use crate::config::{
    base_url_of, jwks_text, ClientMetadata, GrantType, MIN_NONCE_SECRET_BYTES, ProxyConfig,
};
use crate::crypto::p256_public_point;
use crate::error::{invalid_request, is_invalid_request, Error};
use crate::json::{
    boolean_member, boolean_text, json_quoted, member_views, object_text, raw_member,
    string_array_text, string_member, write_object, write_string_array, JsonMember,
};
use crate::store::{is_store_failure, KeyStore, NonceStore, OAuthSessionStore};
use crate::text::{join_spaces, joined_by_space, views};
use crate::token::TokenManager;
use vstd::prelude::*;
use vstd::string::*;

verus! {

/// The OAuth proxy server: its configuration and its stores.
pub struct OAuthProxyServer<S: OAuthSessionStore, K: KeyStore, N: NonceStore> {
    pub config: ProxyConfig,
    pub session_store: S,
    pub key_store: K,
    pub nonce_store: N,
    pub token_manager: TokenManager,
}

/// Collects the parts of a server.
pub struct OAuthProxyServerBuilder<S: OAuthSessionStore, K: KeyStore, N: NonceStore> {
    pub config: Option<ProxyConfig>,
    pub session_store: Option<S>,
    pub key_store: Option<K>,
    pub nonce_store: Option<N>,
}

impl<S: OAuthSessionStore, K: KeyStore, N: NonceStore> OAuthProxyServerBuilder<S, K, N> {
    /// A builder with nothing set.
    pub fn new() -> (builder: Self)
        ensures
            builder.config is None,
            builder.session_store is None,
            builder.key_store is None,
            builder.nonce_store is None,
    {
        OAuthProxyServerBuilder {
            config: None,
            session_store: None,
            key_store: None,
            nonce_store: None,
        }
    }

    /// Sets the configuration.
    pub fn config(self, config: ProxyConfig) -> (builder: Self)
        ensures
            builder.config == Some(config),
            builder.session_store == self.session_store,
            builder.key_store == self.key_store,
            builder.nonce_store == self.nonce_store,
    {
        let mut builder = self;
        builder.config = Some(config);
        builder
    }

    /// Sets the session store.
    pub fn session_store(self, store: S) -> (builder: Self)
        ensures
            builder.session_store == Some(store),
            builder.config == self.config,
            builder.key_store == self.key_store,
            builder.nonce_store == self.nonce_store,
    {
        let mut builder = self;
        builder.session_store = Some(store);
        builder
    }

    /// Sets the key store.
    pub fn key_store(self, store: K) -> (builder: Self)
        ensures
            builder.key_store == Some(store),
            builder.config == self.config,
            builder.session_store == self.session_store,
            builder.nonce_store == self.nonce_store,
    {
        let mut builder = self;
        builder.key_store = Some(store);
        builder
    }

    /// Sets the nonce store.
    pub fn nonce_store(self, store: N) -> (builder: Self)
        ensures
            builder.nonce_store == Some(store),
            builder.config == self.config,
            builder.session_store == self.session_store,
            builder.key_store == self.key_store,
    {
        let mut builder = self;
        builder.nonce_store = Some(store);
        builder
    }

    /// Builds the server. Every part must have been set; the first that is
    /// missing, in the order configuration, session store, key store, nonce
    /// store, is reported, and after those a secret for DPoP nonces that is
    /// shorter than 32 bytes. The token manager issues in the name of the
    /// configured host's base URL.
    pub fn build(self) -> (result: Result<OAuthProxyServer<S, K, N>, Error>)
        ensures
            match result {
                Ok(server) => build_fault(self) is None && Some(server.config) == self.config
                    && Some(server.session_store) == self.session_store && Some(
                    server.key_store,
                ) == self.key_store && Some(server.nonce_store) == self.nonce_store
                    && server.token_manager.issuer() == base_url_of(server.config.host@),
                Err(_) => build_fault(self) matches Some(reason) && is_invalid_request(
                    result,
                    reason,
                ),
            },
    {
        let config = match self.config {
            Some(c) => c,
            None => {
                return invalid_request("config required");
            },
        };
        let session_store = match self.session_store {
            Some(s) => s,
            None => {
                return invalid_request("session_store required");
            },
        };
        let key_store = match self.key_store {
            Some(s) => s,
            None => {
                return invalid_request("key_store required");
            },
        };
        let nonce_store = match self.nonce_store {
            Some(s) => s,
            None => {
                return invalid_request("nonce_store required");
            },
        };
        if config.dpop_nonce_hmac_secret.len() < MIN_NONCE_SECRET_BYTES {
            return invalid_request("dpop_nonce_hmac_secret must be at least 32 bytes");
        }
        let token_manager = TokenManager::new(String::from_str(config.base_url()));
        Ok(OAuthProxyServer { config, session_store, key_store, nonce_store, token_manager })
    }
}

/// What keeps a builder from building, if anything: the first part that is
/// missing, or a secret for DPoP nonces that is too short.
pub open spec fn build_fault<S: OAuthSessionStore, K: KeyStore, N: NonceStore>(
    builder: OAuthProxyServerBuilder<S, K, N>,
) -> Option<Seq<char>> {
    if builder.config is None {
        Some("config required"@)
    } else if builder.session_store is None {
        Some("session_store required"@)
    } else if builder.key_store is None {
        Some("key_store required"@)
    } else if builder.nonce_store is None {
        Some("nonce_store required"@)
    } else if builder.config->0.dpop_nonce_hmac_secret@.len() < MIN_NONCE_SECRET_BYTES {
        Some("dpop_nonce_hmac_secret must be at least 32 bytes"@)
    } else {
        None
    }
}

/// The signing algorithms announced for request objects.
pub open spec fn request_object_algorithms() -> Seq<Seq<char>> {
    seq![
        "RS256"@,
        "RS384"@,
        "RS512"@,
        "PS256"@,
        "PS384"@,
        "PS512"@,
        "ES256"@,
        "ES256K"@,
        "ES384"@,
        "ES512"@,
        "none"@,
    ]
}

/// The signing algorithms announced for client authentication and for
/// DPoP proofs.
pub open spec fn signing_algorithms() -> Seq<Seq<char>> {
    seq![
        "RS256"@,
        "RS384"@,
        "RS512"@,
        "PS256"@,
        "PS384"@,
        "PS512"@,
        "ES256"@,
        "ES256K"@,
        "ES384"@,
        "ES512"@,
    ]
}

/// The members of the authorization server metadata of a proxy at `base`:
/// pushed requests are required, PKCE uses S256, and the grants are
/// authorization code and refresh token.
pub open spec fn oauth_metadata_members(base: Seq<char>) -> Seq<(Seq<char>, Seq<char>)> {
    seq![
        ("issuer"@, json_quoted(base)),
        ("request_parameter_supported"@, boolean_text(true)),
        ("request_uri_parameter_supported"@, boolean_text(true)),
        ("require_request_uri_registration"@, boolean_text(true)),
        (
            "scopes_supported"@,
            string_array_text(seq!["atproto"@, "transition:generic"@, "transition:chat.bsky"@]),
        ),
        ("subject_types_supported"@, string_array_text(seq!["public"@])),
        ("response_types_supported"@, string_array_text(seq!["code"@])),
        (
            "response_modes_supported"@,
            string_array_text(seq!["query"@, "fragment"@, "form_post"@]),
        ),
        (
            "grant_types_supported"@,
            string_array_text(seq!["authorization_code"@, "refresh_token"@]),
        ),
        ("code_challenge_methods_supported"@, string_array_text(seq!["S256"@])),
        ("ui_locales_supported"@, string_array_text(seq!["en-US"@])),
        ("display_values_supported"@, string_array_text(seq!["page"@, "popup"@, "touch"@])),
        ("authorization_response_iss_parameter_supported"@, boolean_text(true)),
        (
            "request_object_encryption_alg_values_supported"@,
            string_array_text(Seq::<Seq<char>>::empty()),
        ),
        (
            "request_object_encryption_enc_values_supported"@,
            string_array_text(Seq::<Seq<char>>::empty()),
        ),
        ("jwks_uri"@, json_quoted(base + "/oauth/jwks.json"@)),
        ("authorization_endpoint"@, json_quoted(base + "/oauth/authorize"@)),
        ("token_endpoint"@, json_quoted(base + "/oauth/token"@)),
        (
            "token_endpoint_auth_methods_supported"@,
            string_array_text(seq!["none"@, "private_key_jwt"@]),
        ),
        ("revocation_endpoint"@, json_quoted(base + "/oauth/revoke"@)),
        ("pushed_authorization_request_endpoint"@, json_quoted(base + "/oauth/par"@)),
        ("require_pushed_authorization_requests"@, boolean_text(true)),
        ("client_id_metadata_document_supported"@, boolean_text(true)),
        (
            "request_object_signing_alg_values_supported"@,
            string_array_text(request_object_algorithms()),
        ),
        (
            "token_endpoint_auth_signing_alg_values_supported"@,
            string_array_text(signing_algorithms()),
        ),
        ("dpop_signing_alg_values_supported"@, string_array_text(signing_algorithms())),
    ]
}

/// The members of the protected resource metadata of a proxy at `base`.
pub open spec fn resource_metadata_members(base: Seq<char>) -> Seq<(Seq<char>, Seq<char>)> {
    seq![
        ("resource"@, json_quoted(base)),
        ("authorization_servers"@, string_array_text(seq![base])),
        ("scopes_supported"@, string_array_text(Seq::<Seq<char>>::empty())),
        ("bearer_methods_supported"@, string_array_text(seq!["header"@])),
        ("resource_documentation"@, json_quoted(base + "/xrpc"@)),
    ]
}

/// The name under which a grant type is announced.
pub open spec fn grant_type_name(grant: GrantType) -> Seq<char> {
    match grant {
        GrantType::AuthorizationCode => "authorization_code"@,
        GrantType::RefreshToken => "refresh_token"@,
    }
}

/// The text of an optional string, or the empty text.
pub open spec fn text_or_empty(text: Option<String>) -> Seq<char> {
    match text {
        Some(t) => t@,
        None => Seq::empty(),
    }
}

/// An optional member: present only when there is a value.
pub open spec fn optional_member(name: Seq<char>, value: Option<String>) -> Seq<
    (Seq<char>, Seq<char>),
> {
    match value {
        Some(v) => seq![(name, json_quoted(v@))],
        None => Seq::empty(),
    }
}

/// The members of the client metadata document: a confidential web client
/// that authenticates with a signed JWT and binds its tokens with DPoP.
pub open spec fn client_metadata_members(metadata: ClientMetadata) -> Seq<(Seq<char>, Seq<char>)> {
    seq![
        ("client_id"@, json_quoted(metadata.client_id@)),
        ("application_type"@, json_quoted("web"@)),
        (
            "grant_types"@,
            string_array_text(
                Seq::new(
                    metadata.grant_types@.len(),
                    |i: int| grant_type_name(metadata.grant_types@[i]),
                ),
            ),
        ),
        ("scope"@, json_quoted(joined_by_space(views(metadata.scopes@)))),
        ("response_types"@, string_array_text(seq!["code"@])),
        ("redirect_uris"@, string_array_text(views(metadata.redirect_uris@))),
        ("token_endpoint_auth_method"@, json_quoted("private_key_jwt"@)),
        ("token_endpoint_auth_signing_alg"@, json_quoted("ES256"@)),
        ("dpop_bound_access_tokens"@, boolean_text(true)),
        ("jwks_uri"@, json_quoted(text_or_empty(metadata.jwks_uri))),
        ("client_name"@, json_quoted(text_or_empty(metadata.client_name))),
        ("client_uri"@, json_quoted(text_or_empty(metadata.client_uri))),
    ] + optional_member("logo_uri"@, metadata.logo_uri) + optional_member(
        "tos_uri"@,
        metadata.tos_uri,
    ) + optional_member("policy_uri"@, metadata.privacy_policy_uri)
}

fn text_list(items: Vec<&str>) -> (texts: Vec<String>)
    ensures
        texts@.len() == items@.len(),
        forall|i: int| 0 <= i < items@.len() ==> (#[trigger] texts@[i])@ == items@[i]@,
{
    let mut texts: Vec<String> = Vec::new();
    let mut i: usize = 0;
    while i < items.len()
        invariant
            0 <= i <= items@.len(),
            texts@.len() == i,
            forall|k: int| 0 <= k < i ==> (#[trigger] texts@[k])@ == items@[k]@,
        decreases items@.len() - i,
    {
        texts.push(String::from_str(items[i]));
        i += 1;
    }
    texts
}

fn string_array(items: Vec<&str>) -> (text: String)
    ensures
        text@ == string_array_text(Seq::new(items@.len(), |i: int| items@[i]@)),
{
    let texts = text_list(items);
    proof {
        assert(views(texts@) =~= Seq::new(items@.len(), |i: int| items@[i]@));
    }
    write_string_array(&texts)
}

fn text_or_default(text: &Option<String>) -> (value: &str)
    ensures
        value@ == text_or_empty(*text),
{
    match text {
        Some(t) => t.as_str(),
        None => {
            let empty = "";
            proof {
                reveal_strlit("");
                assert(empty@ =~= Seq::<char>::empty());
            }
            empty
        },
    }
}

fn push_optional(members: &mut Vec<JsonMember>, name: &str, value: &Option<String>)
    ensures
        member_views(final(members)@) == member_views(old(members)@) + optional_member(
            name@,
            *value,
        ),
{
    let ghost before = member_views(members@);
    match value {
        Some(v) => {
            members.push(string_member(name, v.as_str()));
            proof {
                assert(member_views(members@) =~= before + seq![(name@, json_quoted(v@))]);
            }
        },
        None => {
            proof {
                assert(before + Seq::<(Seq<char>, Seq<char>)>::empty() =~= before);
            }
        },
    }
}

/// Writes the authorization server metadata of a proxy at `base`.
pub fn oauth_metadata_document(base: &str) -> (document: String)
    ensures
        document@ == object_text(oauth_metadata_members(base@)),
{
    let algorithms = vec![
        "RS256",
        "RS384",
        "RS512",
        "PS256",
        "PS384",
        "PS512",
        "ES256",
        "ES256K",
        "ES384",
        "ES512",
    ];
    let object_algorithms = vec![
        "RS256",
        "RS384",
        "RS512",
        "PS256",
        "PS384",
        "PS512",
        "ES256",
        "ES256K",
        "ES384",
        "ES512",
        "none",
    ];
    let algorithms_again = vec![
        "RS256",
        "RS384",
        "RS512",
        "PS256",
        "PS384",
        "PS512",
        "ES256",
        "ES256K",
        "ES384",
        "ES512",
    ];
    proof {
        assert(Seq::new(algorithms@.len(), |i: int| algorithms@[i]@) =~= signing_algorithms());
        assert(Seq::new(algorithms_again@.len(), |i: int| algorithms_again@[i]@)
            =~= signing_algorithms());
        assert(Seq::new(object_algorithms@.len(), |i: int| object_algorithms@[i]@)
            =~= request_object_algorithms());
    }
    let scopes = vec!["atproto", "transition:generic", "transition:chat.bsky"];
    let subjects = vec!["public"];
    let response_types = vec!["code"];
    let response_modes = vec!["query", "fragment", "form_post"];
    let grants = vec!["authorization_code", "refresh_token"];
    let challenges = vec!["S256"];
    let locales = vec!["en-US"];
    let displays = vec!["page", "popup", "touch"];
    let none_a: Vec<&str> = Vec::new();
    let none_b: Vec<&str> = Vec::new();
    let auth_methods = vec!["none", "private_key_jwt"];
    proof {
        assert(Seq::new(scopes@.len(), |i: int| scopes@[i]@) =~= seq![
            "atproto"@,
            "transition:generic"@,
            "transition:chat.bsky"@,
        ]);
        assert(Seq::new(subjects@.len(), |i: int| subjects@[i]@) =~= seq!["public"@]);
        assert(Seq::new(response_types@.len(), |i: int| response_types@[i]@) =~= seq!["code"@]);
        assert(Seq::new(response_modes@.len(), |i: int| response_modes@[i]@) =~= seq![
            "query"@,
            "fragment"@,
            "form_post"@,
        ]);
        assert(Seq::new(grants@.len(), |i: int| grants@[i]@) =~= seq![
            "authorization_code"@,
            "refresh_token"@,
        ]);
        assert(Seq::new(challenges@.len(), |i: int| challenges@[i]@) =~= seq!["S256"@]);
        assert(Seq::new(locales@.len(), |i: int| locales@[i]@) =~= seq!["en-US"@]);
        assert(Seq::new(displays@.len(), |i: int| displays@[i]@) =~= seq![
            "page"@,
            "popup"@,
            "touch"@,
        ]);
        assert(Seq::new(none_a@.len(), |i: int| none_a@[i]@) =~= Seq::<Seq<char>>::empty());
        assert(Seq::new(none_b@.len(), |i: int| none_b@[i]@) =~= Seq::<Seq<char>>::empty());
        assert(Seq::new(auth_methods@.len(), |i: int| auth_methods@[i]@) =~= seq![
            "none"@,
            "private_key_jwt"@,
        ]);
    }
    let members = vec![
        string_member("issuer", base),
        boolean_member("request_parameter_supported", true),
        boolean_member("request_uri_parameter_supported", true),
        boolean_member("require_request_uri_registration", true),
        raw_member("scopes_supported", string_array(scopes)),
        raw_member("subject_types_supported", string_array(subjects)),
        raw_member("response_types_supported", string_array(response_types)),
        raw_member("response_modes_supported", string_array(response_modes)),
        raw_member("grant_types_supported", string_array(grants)),
        raw_member("code_challenge_methods_supported", string_array(challenges)),
        raw_member("ui_locales_supported", string_array(locales)),
        raw_member("display_values_supported", string_array(displays)),
        boolean_member("authorization_response_iss_parameter_supported", true),
        raw_member("request_object_encryption_alg_values_supported", string_array(none_a)),
        raw_member("request_object_encryption_enc_values_supported", string_array(none_b)),
        string_member("jwks_uri", String::from_str(base).concat("/oauth/jwks.json").as_str()),
        string_member(
            "authorization_endpoint",
            String::from_str(base).concat("/oauth/authorize").as_str(),
        ),
        string_member("token_endpoint", String::from_str(base).concat("/oauth/token").as_str()),
        raw_member("token_endpoint_auth_methods_supported", string_array(auth_methods)),
        string_member(
            "revocation_endpoint",
            String::from_str(base).concat("/oauth/revoke").as_str(),
        ),
        string_member(
            "pushed_authorization_request_endpoint",
            String::from_str(base).concat("/oauth/par").as_str(),
        ),
        boolean_member("require_pushed_authorization_requests", true),
        boolean_member("client_id_metadata_document_supported", true),
        raw_member("request_object_signing_alg_values_supported", string_array(object_algorithms)),
        raw_member("token_endpoint_auth_signing_alg_values_supported", string_array(algorithms)),
        raw_member("dpop_signing_alg_values_supported", string_array(algorithms_again)),
    ];
    proof {
        assert(member_views(members@) =~= oauth_metadata_members(base@));
    }
    write_object(&members)
}

/// Writes the protected resource metadata of a proxy at `base`.
pub fn resource_metadata_document(base: &str) -> (document: String)
    ensures
        document@ == object_text(resource_metadata_members(base@)),
{
    let servers = vec![base];
    let none: Vec<&str> = Vec::new();
    let methods = vec!["header"];
    proof {
        assert(Seq::new(servers@.len(), |i: int| servers@[i]@) =~= seq![base@]);
        assert(Seq::new(none@.len(), |i: int| none@[i]@) =~= Seq::<Seq<char>>::empty());
        assert(Seq::new(methods@.len(), |i: int| methods@[i]@) =~= seq!["header"@]);
    }
    let members = vec![
        string_member("resource", base),
        raw_member("authorization_servers", string_array(servers)),
        raw_member("scopes_supported", string_array(none)),
        raw_member("bearer_methods_supported", string_array(methods)),
        string_member(
            "resource_documentation",
            String::from_str(base).concat("/xrpc").as_str(),
        ),
    ];
    proof {
        assert(member_views(members@) =~= resource_metadata_members(base@));
    }
    write_object(&members)
}

/// Writes the client metadata document.
pub fn client_metadata_document(metadata: &ClientMetadata) -> (document: String)
    ensures
        document@ == object_text(client_metadata_members(*metadata)),
{
    let mut grants: Vec<String> = Vec::new();
    let mut i: usize = 0;
    while i < metadata.grant_types.len()
        invariant
            0 <= i <= metadata.grant_types@.len(),
            grants@.len() == i,
            forall|k: int|
                0 <= k < i ==> (#[trigger] grants@[k])@ == grant_type_name(
                    metadata.grant_types@[k],
                ),
        decreases metadata.grant_types@.len() - i,
    {
        let name = match metadata.grant_types[i] {
            GrantType::AuthorizationCode => "authorization_code",
            GrantType::RefreshToken => "refresh_token",
        };
        grants.push(String::from_str(name));
        i += 1;
    }
    let response_types = vec!["code"];
    proof {
        assert(views(grants@) =~= Seq::new(
            metadata.grant_types@.len(),
            |i: int| grant_type_name(metadata.grant_types@[i]),
        ));
        assert(Seq::new(response_types@.len(), |i: int| response_types@[i]@) =~= seq!["code"@]);
    }
    let mut members = vec![
        string_member("client_id", metadata.client_id.as_str()),
        string_member("application_type", "web"),
        raw_member("grant_types", write_string_array(&grants)),
        string_member("scope", join_spaces(&metadata.scopes).as_str()),
        raw_member("response_types", string_array(response_types)),
        raw_member("redirect_uris", write_string_array(&metadata.redirect_uris)),
        string_member("token_endpoint_auth_method", "private_key_jwt"),
        string_member("token_endpoint_auth_signing_alg", "ES256"),
        boolean_member("dpop_bound_access_tokens", true),
        string_member("jwks_uri", text_or_default(&metadata.jwks_uri)),
        string_member("client_name", text_or_default(&metadata.client_name)),
        string_member("client_uri", text_or_default(&metadata.client_uri)),
    ];
    proof {
        assert(member_views(members@) =~= seq![
            ("client_id"@, json_quoted(metadata.client_id@)),
            ("application_type"@, json_quoted("web"@)),
            (
                "grant_types"@,
                string_array_text(
                    Seq::new(
                        metadata.grant_types@.len(),
                        |i: int| grant_type_name(metadata.grant_types@[i]),
                    ),
                ),
            ),
            ("scope"@, json_quoted(joined_by_space(views(metadata.scopes@)))),
            ("response_types"@, string_array_text(seq!["code"@])),
            ("redirect_uris"@, string_array_text(views(metadata.redirect_uris@))),
            ("token_endpoint_auth_method"@, json_quoted("private_key_jwt"@)),
            ("token_endpoint_auth_signing_alg"@, json_quoted("ES256"@)),
            ("dpop_bound_access_tokens"@, boolean_text(true)),
            ("jwks_uri"@, json_quoted(text_or_empty(metadata.jwks_uri))),
            ("client_name"@, json_quoted(text_or_empty(metadata.client_name))),
            ("client_uri"@, json_quoted(text_or_empty(metadata.client_uri))),
        ]);
    }
    push_optional(&mut members, "logo_uri", &metadata.logo_uri);
    push_optional(&mut members, "tos_uri", &metadata.tos_uri);
    push_optional(&mut members, "policy_uri", &metadata.privacy_policy_uri);
    write_object(&members)
}

impl<S: OAuthSessionStore, K: KeyStore, N: NonceStore> OAuthProxyServer<S, K, N> {
    /// A builder for a server.
    pub fn builder() -> (builder: OAuthProxyServerBuilder<S, K, N>)
        ensures
            builder.config is None,
            builder.session_store is None,
            builder.key_store is None,
            builder.nonce_store is None,
    {
        OAuthProxyServerBuilder::new()
    }

    /// The public base URL of the proxy.
    pub open spec fn base(&self) -> Seq<char> {
        base_url_of(self.config.host@)
    }

    /// The authorization server metadata, for
    /// `/.well-known/oauth-authorization-server`.
    pub fn handle_oauth_metadata(&self) -> (document: String)
        ensures
            document@ == object_text(oauth_metadata_members(self.base())),
    {
        oauth_metadata_document(self.config.base_url())
    }

    /// The protected resource metadata, for
    /// `/.well-known/oauth-protected-resource`.
    pub fn handle_protected_resource_metadata(&self) -> (document: String)
        ensures
            document@ == object_text(resource_metadata_members(self.base())),
    {
        resource_metadata_document(self.config.base_url())
    }

    /// The proxy's client metadata, for `/oauth-client-metadata.json`.
    pub fn handle_client_metadata(&self) -> (document: String)
        ensures
            document@ == object_text(client_metadata_members(self.config.client_metadata)),
    {
        client_metadata_document(&self.config.client_metadata)
    }

    /// The proxy's public key set, for `/oauth/jwks.json`. A key store that
    /// fails passes its error on; a key that is no valid private scalar is
    /// an invalid request.
    pub fn handle_jwks(&self) -> (result: Result<String, Error>)
        ensures
            self.key_store.never_fails() ==> match result {
                Ok(document) => p256_public_point(self.key_store.signing_secret()) matches Some(
                    point,
                ) && document@ == jwks_text(point.0, point.1),
                Err(e) => p256_public_point(self.key_store.signing_secret()) is None && e
                    is InvalidRequest,
            },
            is_store_failure(result) || (match result {
                Ok(document) => p256_public_point(self.key_store.signing_secret()) matches Some(
                    point,
                ) && document@ == jwks_text(point.0, point.1),
                Err(e) => p256_public_point(self.key_store.signing_secret()) is None && e
                    is InvalidRequest,
            }),
    {
        let key = match self.key_store.get_signing_key() {
            Ok(k) => k,
            Err(e) => {
                return Err(e);
            },
        };
        match ProxyConfig::signing_key_to_jwks(&key) {
            Some(document) => Ok(document),
            None => Err(Error::InvalidRequest(String::from_str("missing x coordinate"))),
        }
    }
}

} // verus!
