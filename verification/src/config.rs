//! Configuration of the proxy, and the metadata with which it presents
//! itself to upstream servers as an OAuth client.

use crate::crypto::{p256_public_point, public_point, SigningKey};
use crate::encoding::{base64url, base64url_encode};
use crate::error::{invalid_request, is_invalid_request, Error};
use crate::json::{
    array_text, json_quoted, member_views, object_text, raw_member, string_member, write_array,
    write_object,
};
use crate::text::{same_text, trim_end_matches, views, without_trailing};
use vstd::prelude::*;
use vstd::string::*;

verus! {

/// Seconds for which a downstream token is valid unless configured.
pub const DEFAULT_TOKEN_EXPIRY_SECONDS: i64 = 3600;

/// Fewest bytes of a secret for DPoP nonces.
pub const MIN_NONCE_SECRET_BYTES: usize = 32;

/// The text of a URL as the `url` crate writes it after parsing; `None`
/// when the text is no URL.
pub uninterp spec fn normalized_url(text: Seq<char>) -> Option<Seq<char>>;

/// The host of a URL as the `url` crate gives it after parsing: a domain
/// or an IP address, as text; `None` when the text is no URL or the URL has
/// no host.
pub uninterp spec fn parsed_host(text: Seq<char>) -> Option<Seq<char>>;

/// The normal form of an OAuth scope of the network; `None` when the text
/// is no such scope.
pub uninterp spec fn normalized_scope(text: Seq<char>) -> Option<Seq<char>>;

/// The client identifier of a loopback client with one redirect URI and a
/// scope string; `None` when either is malformed.
pub uninterp spec fn loopback_client_id(redirect_uri: Seq<char>, scope: Seq<char>) -> Option<
    Seq<char>,
>;

/// Calls `url::Url::parse` and writes the URL back. Trusted: the result is
/// the parsed URL's text, and `None` exactly when parsing fails.
#[verifier::external_body]
pub(crate) fn parse_url(text: &str) -> (normal: Option<String>)
    ensures
        match normal {
            Some(n) => normalized_url(text@) == Some(n@),
            None => normalized_url(text@) is None,
        },
{
    url::Url::parse(text).ok().map(|u| u.to_string())
}

/// Calls `url::Url::parse` and `Url::host_str`. Trusted: the result is the
/// host of the parsed URL, and `None` exactly when parsing fails or the URL
/// has no host.
#[verifier::external_body]
pub(crate) fn url_host(text: &str) -> (host: Option<String>)
    ensures
        match host {
            Some(h) => parsed_host(text@) == Some(h@),
            None => parsed_host(text@) is None,
        },
{
    url::Url::parse(text).ok()?.host_str().map(String::from)
}

/// Calls `jacquard_oauth::scopes::Scope::parse` and writes the scope back.
/// Trusted: the result is the scope's normal form, and `None` exactly when
/// parsing fails.
#[verifier::external_body]
pub(crate) fn parse_scope(text: &str) -> (normal: Option<String>)
    ensures
        match normal {
            Some(n) => normalized_scope(text@) == Some(n@),
            None => normalized_scope(text@) is None,
        },
{
    let scope = jacquard_oauth::scopes::Scope::<jacquard_common::DefaultStr>::parse(text);
    scope.ok().map(|s| s.to_string())
}

/// Calls `jacquard_oauth::atproto::AtprotoClientMetadata::new_localhost`
/// with one redirect URI and a scope string. Trusted: the result is the
/// `client_id` of the metadata it builds, and `None` exactly when the
/// redirect URI or the scope string cannot be parsed.
#[verifier::external_body]
pub(crate) fn make_loopback_client_id(redirect_uri: &str, scope: &str) -> (id: Option<String>)
    ensures
        match id {
            Some(i) => loopback_client_id(redirect_uri@, scope@) == Some(i@),
            None => loopback_client_id(redirect_uri@, scope@) is None,
        },
{
    let uri = jacquard_common::deps::fluent_uri::Uri::parse(redirect_uri.to_string()).ok()?;
    let scopes = jacquard_oauth::scopes::Scopes::<jacquard_common::DefaultStr>::new(
        scope.into(),
    ).ok()?;
    let metadata = jacquard_oauth::atproto::AtprotoClientMetadata::new_localhost(
        Some(vec![uri]),
        Some(scopes),
    );
    Some(metadata.client_id.to_string())
}

/// A grant type the proxy uses upstream.
#[derive(Debug, Clone, Copy, PartialEq, Eq)]
pub enum GrantType {
    AuthorizationCode,
    RefreshToken,
}

/// The proxy's metadata as an OAuth client of upstream servers.
#[derive(Debug)]
pub struct ClientMetadata {
    /// The client identifier: the URL of the metadata document.
    pub client_id: String,
    pub client_uri: Option<String>,
    pub redirect_uris: Vec<String>,
    pub grant_types: Vec<GrantType>,
    pub scopes: Vec<String>,
    pub jwks_uri: Option<String>,
    pub client_name: Option<String>,
    pub logo_uri: Option<String>,
    pub tos_uri: Option<String>,
    pub privacy_policy_uri: Option<String>,
}

/// Configuration of the proxy.
#[derive(Debug)]
pub struct ProxyConfig {
    /// Public address of this proxy, as a normalized URL.
    pub host: String,
    /// OAuth scopes to request.
    pub scope: Vec<String>,
    /// Client metadata for upstream flows.
    pub client_metadata: ClientMetadata,
    /// Default upstream server for unauthenticated requests.
    pub default_pds: String,
    /// Secret for DPoP nonces; at least 32 bytes are recommended.
    pub dpop_nonce_hmac_secret: Vec<u8>,
    /// Seconds for which a downstream token is valid.
    pub downstream_token_expiry_seconds: i64,
}

/// The scopes requested unless configured.
pub open spec fn default_scopes() -> Seq<Seq<char>> {
    seq!["atproto"@, "transition:generic"@]
}

/// Whether a host name is that of a local development host: `localhost`
/// or `127.0.0.1`.
pub open spec fn is_loopback_host(host_name: Seq<char>) -> bool {
    host_name == "localhost"@ || host_name == "127.0.0.1"@
}

/// The public base URL for a host URL: without trailing slashes.
pub open spec fn base_url_of(host: Seq<char>) -> Seq<char> {
    without_trailing(host, '/')
}

/// Whether `config` is the default configuration for the normalized host
/// URL `host`, whose host name is `host_name`, with the nonce secret
/// `secret`.
pub open spec fn is_default_config(
    config: ProxyConfig,
    host: Seq<char>,
    host_name: Seq<char>,
    secret: Seq<u8>,
) -> bool {
    let base = base_url_of(host);
    let metadata = config.client_metadata;
    &&& config.host@ == host
    &&& views(config.scope@) == default_scopes()
    &&& config.default_pds@ == "https://public.api.bsky.app/"@
    &&& config.dpop_nonce_hmac_secret@ == secret
    &&& config.downstream_token_expiry_seconds == DEFAULT_TOKEN_EXPIRY_SECONDS
    &&& views(metadata.redirect_uris@) == seq![base + "/oauth/return"@]
    &&& metadata.grant_types@ == seq![GrantType::AuthorizationCode, GrantType::RefreshToken]
    &&& views(metadata.scopes@) == default_scopes()
    &&& metadata.privacy_policy_uri is None
    &&& if is_loopback_host(host_name) {
        &&& Some(metadata.client_id@) == loopback_client_id(
            base + "/oauth/return"@,
            "atproto transition:generic"@,
        )
        &&& metadata.client_uri is None
        &&& metadata.jwks_uri is None
        &&& metadata.client_name is None
        &&& metadata.logo_uri is None
        &&& metadata.tos_uri is None
    } else {
        &&& metadata.client_id@ == base + "/oauth-client-metadata.json"@
        &&& crate::text::text_view(metadata.client_uri) == Some(host)
        &&& crate::text::text_view(metadata.jwks_uri) == Some(base + "/oauth/jwks.json"@)
        &&& crate::text::text_view(metadata.client_name) == Some("istat OAuth Proxy"@)
        &&& crate::text::text_view(metadata.logo_uri) == Some(base + "/logo.png"@)
        &&& crate::text::text_view(metadata.tos_uri) == Some(base + "/tos"@)
    }
}

/// What is wrong with the arguments of a configuration, if anything: the
/// first of a nonce secret shorter than 32 bytes, a host that is no URL
/// with a host name, and, for a local development host, a loopback client
/// identifier that cannot be built.
pub open spec fn config_fault(host: Seq<char>, secret: Seq<u8>) -> Option<Seq<char>> {
    if secret.len() < MIN_NONCE_SECRET_BYTES {
        Some("dpop_nonce_hmac_secret must be at least 32 bytes"@)
    } else {
        match (normalized_url(host), parsed_host(host)) {
            (Some(url), Some(host_name)) => if is_loopback_host(host_name) && loopback_client_id(
                base_url_of(url) + "/oauth/return"@,
                "atproto transition:generic"@,
            ) is None {
                Some("loopback client metadata cannot be built"@)
            } else {
                None
            },
            _ => Some("host must be a URL with a host name"@),
        }
    }
}

fn default_scope_list() -> (scopes: Vec<String>)
    ensures
        views(scopes@) == default_scopes(),
{
    let scopes = vec![String::from_str("atproto"), String::from_str("transition:generic")];
    assert(views(scopes@) =~= default_scopes());
    scopes
}

impl ProxyConfig {
    /// The default configuration for a proxy at `host` with the given
    /// secret for DPoP nonces. The secret must have at least 32 bytes. The
    /// host is parsed as a URL and kept in normal form. A URL whose host
    /// name is `localhost` or `127.0.0.1` gets the metadata of a loopback
    /// client; any other gets metadata derived from it.
    pub fn new(host: &str, dpop_nonce_hmac_secret: Vec<u8>) -> (result: Result<
        ProxyConfig,
        Error,
    >)
        ensures
            match result {
                Ok(config) => config_fault(host@, dpop_nonce_hmac_secret@) is None
                    && is_default_config(
                    config,
                    normalized_url(host@)->0,
                    parsed_host(host@)->0,
                    dpop_nonce_hmac_secret@,
                ),
                Err(_) => config_fault(host@, dpop_nonce_hmac_secret@) matches Some(reason)
                    && is_invalid_request(result, reason),
            },
    {
        if dpop_nonce_hmac_secret.len() < MIN_NONCE_SECRET_BYTES {
            return invalid_request("dpop_nonce_hmac_secret must be at least 32 bytes");
        }
        let (url, host_name) = match (parse_url(host), url_host(host)) {
            (Some(url), Some(host_name)) => (url, host_name),
            _ => {
                return invalid_request("host must be a URL with a host name");
            },
        };
        let base = trim_end_matches(url.as_str(), '/');
        let redirect = String::from_str(base).concat("/oauth/return");
        let redirect_uris = vec![redirect.clone()];
        let grant_types = vec![GrantType::AuthorizationCode, GrantType::RefreshToken];
        proof {
            assert(views(redirect_uris@) =~= seq![base@ + "/oauth/return"@]);
        }
        let loopback = same_text(host_name.as_str(), "localhost") || same_text(
            host_name.as_str(),
            "127.0.0.1",
        );
        let client_metadata = if loopback {
            let client_id = match make_loopback_client_id(
                redirect.as_str(),
                "atproto transition:generic",
            ) {
                Some(id) => id,
                None => {
                    return invalid_request("loopback client metadata cannot be built");
                },
            };
            ClientMetadata {
                client_id,
                client_uri: None,
                redirect_uris,
                grant_types,
                scopes: default_scope_list(),
                jwks_uri: None,
                client_name: None,
                logo_uri: None,
                tos_uri: None,
                privacy_policy_uri: None,
            }
        } else {
            ClientMetadata {
                client_id: String::from_str(base).concat("/oauth-client-metadata.json"),
                client_uri: Some(url.clone()),
                redirect_uris,
                grant_types,
                scopes: default_scope_list(),
                jwks_uri: Some(String::from_str(base).concat("/oauth/jwks.json")),
                client_name: Some(String::from_str("istat OAuth Proxy")),
                logo_uri: Some(String::from_str(base).concat("/logo.png")),
                tos_uri: Some(String::from_str(base).concat("/tos")),
                privacy_policy_uri: None,
            }
        };
        Ok(
            ProxyConfig {
                host: url,
                scope: default_scope_list(),
                client_metadata,
                default_pds: String::from_str("https://public.api.bsky.app/"),
                dpop_nonce_hmac_secret,
                downstream_token_expiry_seconds: DEFAULT_TOKEN_EXPIRY_SECONDS,
            },
        )
    }

    /// The public base URL of the proxy: its host without trailing
    /// slashes. It is the issuer of the proxy's tokens.
    pub fn base_url(&self) -> (base: &str)
        ensures
            base@ == base_url_of(self.host@),
    {
        trim_end_matches(self.host.as_str(), '/')
    }

    /// Sets the scopes to request.
    pub fn with_scopes(self, scopes: Vec<String>) -> (config: ProxyConfig)
        ensures
            config == (ProxyConfig { scope: scopes, ..self }),
    {
        let mut config = self;
        config.scope = scopes;
        config
    }

    /// Sets the default upstream server. It is parsed as a URL and kept in
    /// normal form; a text that is no URL is refused.
    pub fn with_default_pds(self, pds: String) -> (result: Result<ProxyConfig, Error>)
        ensures
            match result {
                Ok(config) => normalized_url(pds@) == Some(config.default_pds@) && config
                    == (ProxyConfig { default_pds: config.default_pds, ..self }),
                Err(_) => normalized_url(pds@) is None && is_invalid_request(
                    result,
                    "default_pds must be a URL"@,
                ),
            },
    {
        let url = match parse_url(pds.as_str()) {
            Some(u) => u,
            None => {
                return invalid_request("default_pds must be a URL");
            },
        };
        let mut config = self;
        config.default_pds = url;
        Ok(config)
    }

    /// Sets the secret for DPoP nonces. A secret shorter than 32 bytes is
    /// refused.
    pub fn with_dpop_nonce_secret(self, secret: Vec<u8>) -> (result: Result<ProxyConfig, Error>)
        ensures
            match result {
                Ok(config) => secret@.len() >= MIN_NONCE_SECRET_BYTES && config == (ProxyConfig {
                    dpop_nonce_hmac_secret: secret,
                    ..self
                }),
                Err(_) => secret@.len() < MIN_NONCE_SECRET_BYTES && is_invalid_request(
                    result,
                    "dpop_nonce_hmac_secret must be at least 32 bytes"@,
                ),
            },
    {
        if secret.len() < MIN_NONCE_SECRET_BYTES {
            return invalid_request("dpop_nonce_hmac_secret must be at least 32 bytes");
        }
        let mut config = self;
        config.dpop_nonce_hmac_secret = secret;
        Ok(config)
    }

    /// Sets the lifetime of downstream tokens, in seconds.
    pub fn with_downstream_token_expiry(self, seconds: i64) -> (config: ProxyConfig)
        ensures
            config == (ProxyConfig { downstream_token_expiry_seconds: seconds, ..self }),
    {
        let mut config = self;
        config.downstream_token_expiry_seconds = seconds;
        config
    }

    /// Sets the client's display name.
    pub fn with_client_name(self, name: String) -> (config: ProxyConfig)
        ensures
            config == (ProxyConfig {
                client_metadata: ClientMetadata { client_name: Some(name), ..self.client_metadata },
                ..self
            }),
    {
        let mut config = self;
        config.client_metadata.client_name = Some(name);
        config
    }

    /// Sets the URI of the terms of service.
    pub fn with_tos_uri(self, uri: String) -> (config: ProxyConfig)
        ensures
            config == (ProxyConfig {
                client_metadata: ClientMetadata { tos_uri: Some(uri), ..self.client_metadata },
                ..self
            }),
    {
        let mut config = self;
        config.client_metadata.tos_uri = Some(uri);
        config
    }

    /// Sets the URI of the logo.
    pub fn with_logo_uri(self, uri: String) -> (config: ProxyConfig)
        ensures
            config == (ProxyConfig {
                client_metadata: ClientMetadata { logo_uri: Some(uri), ..self.client_metadata },
                ..self
            }),
    {
        let mut config = self;
        config.client_metadata.logo_uri = Some(uri);
        config
    }

    /// Sets the URI of the client's home page.
    pub fn with_client_uri(self, uri: String) -> (config: ProxyConfig)
        ensures
            config == (ProxyConfig {
                client_metadata: ClientMetadata { client_uri: Some(uri), ..self.client_metadata },
                ..self
            }),
    {
        let mut config = self;
        config.client_metadata.client_uri = Some(uri);
        config
    }

    /// Sets the redirect URIs.
    pub fn with_redirect_uris(self, uris: Vec<String>) -> (config: ProxyConfig)
        ensures
            config == (ProxyConfig {
                client_metadata: ClientMetadata { redirect_uris: uris, ..self.client_metadata },
                ..self
            }),
    {
        let mut config = self;
        config.client_metadata.redirect_uris = uris;
        config
    }

    /// Sets the URI of the privacy policy.
    pub fn with_policy_uri(self, uri: String) -> (config: ProxyConfig)
        ensures
            config == (ProxyConfig {
                client_metadata: ClientMetadata {
                    privacy_policy_uri: Some(uri),
                    ..self.client_metadata
                },
                ..self
            }),
    {
        let mut config = self;
        config.client_metadata.privacy_policy_uri = Some(uri);
        config
    }

    /// Draws a new P-256 signing key for this instance: the 32 bytes of
    /// a valid private scalar, for which there is a key set document.
    pub fn generate_signing_key() -> (key: SigningKey)
        ensures
            key@.len() == 32,
            p256_public_point(key@) is Some,
    {
        SigningKey::generate()
    }

    /// The key set document for a signing key: one public `EC` key on
    /// `P-256`, for signatures with ES256, called `proxy-signing-key`.
    /// `None` when the key is no valid private scalar.
    pub fn signing_key_to_jwks(signing_key: &SigningKey) -> (document: Option<String>)
        ensures
            match document {
                Some(d) => p256_public_point(signing_key@) matches Some(point) && d@ == jwks_text(
                    point.0,
                    point.1,
                ),
                None => p256_public_point(signing_key@) is None,
            },
    {
        let (x, y) = public_point(signing_key.secret.as_slice())?;
        let key = vec![
            string_member("kty", "EC"),
            string_member("crv", "P-256"),
            string_member("x", base64url_encode(x.as_slice()).as_str()),
            string_member("y", base64url_encode(y.as_slice()).as_str()),
            string_member("use", "sig"),
            string_member("alg", "ES256"),
            string_member("kid", "proxy-signing-key"),
        ];
        let keys = vec![write_object(&key)];
        let document = vec![raw_member("keys", write_array(&keys))];
        proof {
            assert(member_views(key@) =~= public_key_members(x@, y@));
            assert(views(keys@) =~= seq![object_text(public_key_members(x@, y@))]);
            assert(member_views(document@) =~= seq![
                ("keys"@, array_text(seq![object_text(public_key_members(x@, y@))])),
            ]);
        }
        Some(write_object(&document))
    }
}

/// The members of the proxy's public key in a key set.
pub open spec fn public_key_members(x: Seq<u8>, y: Seq<u8>) -> Seq<(Seq<char>, Seq<char>)> {
    seq![
        ("kty"@, json_quoted("EC"@)),
        ("crv"@, json_quoted("P-256"@)),
        ("x"@, json_quoted(base64url(x))),
        ("y"@, json_quoted(base64url(y))),
        ("use"@, json_quoted("sig"@)),
        ("alg"@, json_quoted("ES256"@)),
        ("kid"@, json_quoted("proxy-signing-key"@)),
    ]
}

/// The key set document for the public key with coordinates `x` and `y`.
pub open spec fn jwks_text(x: Seq<u8>, y: Seq<u8>) -> Seq<char> {
    object_text(seq![("keys"@, array_text(seq![object_text(public_key_members(x, y))]))])
}

} // verus!
