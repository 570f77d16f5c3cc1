//! The error taxonomy of the proxy and how each kind is surfaced over HTTP.

use vstd::prelude::*;
use vstd::string::*;

verus! {

/// Every way a proxy operation can fail.
#[derive(Debug)]
pub enum Error {
    SessionNotFound,
    SessionExpired,
    InvalidSessionState,
    InvalidGrant,
    InvalidRequest(String),
    InvalidClient,
    UnauthorizedClient,
    UnsupportedGrantType,
    Unauthorized,
    DpopProofRequired,
    /// Carries the fresh nonce that the client must use in its next proof.
    DpopNonceRequired(String),
    DpopMethodMismatch,
    DpopUrlMismatch,
    DpopNonceReused,
    DpopExpired,
    DpopInvalid,
    KeyNotFound,
    KeyGenerationFailed,
    StorageError(String),
    NetworkError(String),
    Internal(String),
}

pub type Result<T> = std::result::Result<T, Error>;

/// What an error looks like on the wire.
pub struct ErrorResponse {
    /// HTTP status code.
    pub status: u16,
    /// Value of the `DPoP-Nonce` header, when one has to be sent.
    pub dpop_nonce: Option<String>,
    /// OAuth error code of the JSON body, or `None` for a plain-text body.
    pub error: Option<String>,
    /// The `error_description` of a JSON body, or the whole plain-text body.
    pub description: String,
}

/// Whether a result is an invalid request with the given reason.
pub open spec fn is_invalid_request<T>(result: std::result::Result<T, Error>, reason: Seq<char>)
    -> bool {
    result matches Err(Error::InvalidRequest(m)) && m@ == reason
}

/// An invalid request with the given reason.
pub fn invalid_request<T>(reason: &str) -> (result: std::result::Result<T, Error>)
    ensures
        is_invalid_request(result, reason@),
{
    Err(Error::InvalidRequest(String::from_str(reason)))
}

/// The sentence sent along with a nonce challenge.
pub open spec fn nonce_challenge_text() -> Seq<char> {
    "Authorization server requires nonce in DPoP proof"@
}

impl ErrorResponse {
    /// The body of the response: a JSON object with the members `error`
    /// and `error_description` where the error has an OAuth code, the plain
    /// description otherwise.
    pub open spec fn body_text(self) -> Seq<char> {
        match self.error {
            Some(code) => crate::json::object_text(
                seq![
                    ("error"@, crate::json::json_quoted(code@)),
                    ("error_description"@, crate::json::json_quoted(self.description@)),
                ],
            ),
            None => self.description@,
        }
    }

    /// Whether the body is a JSON document.
    pub fn is_json(&self) -> (json: bool)
        ensures
            json == self.error is Some,
    {
        self.error.is_some()
    }

    /// Writes the body of the response.
    pub fn body(&self) -> (text: String)
        ensures
            text@ == self.body_text(),
    {
        match &self.error {
            Some(code) => {
                let members = vec![
                    crate::json::string_member("error", code.as_str()),
                    crate::json::string_member("error_description", self.description.as_str()),
                ];
                proof {
                    assert(crate::json::member_views(members@) =~= seq![
                        ("error"@, crate::json::json_quoted(code@)),
                        ("error_description"@, crate::json::json_quoted(self.description@)),
                    ]);
                }
                crate::json::write_object(&members)
            },
            None => self.description.clone(),
        }
    }
}

impl Error {
    /// The human-readable text of an error.
    pub open spec fn message_text(self) -> Seq<char> {
        match self {
            Error::SessionNotFound => "session not found"@,
            Error::SessionExpired => "session expired"@,
            Error::InvalidSessionState => "invalid session state"@,
            Error::InvalidGrant => "invalid_grant"@,
            Error::InvalidRequest(msg) => "invalid_request: "@ + msg@,
            Error::InvalidClient => "invalid_client"@,
            Error::UnauthorizedClient => "unauthorized_client"@,
            Error::UnsupportedGrantType => "unsupported_grant_type"@,
            Error::Unauthorized => "unauthorized"@,
            Error::DpopProofRequired => "DPoP proof required"@,
            Error::DpopNonceRequired(_) => "use_dpop_nonce"@,
            Error::DpopMethodMismatch => "DPoP htm mismatch"@,
            Error::DpopUrlMismatch => "DPoP htu mismatch"@,
            Error::DpopNonceReused => "DPoP nonce reused"@,
            Error::DpopExpired => "DPoP proof expired"@,
            Error::DpopInvalid => "invalid DPoP proof"@,
            Error::KeyNotFound => "key not found"@,
            Error::KeyGenerationFailed => "key generation failed"@,
            Error::StorageError(msg) => "storage error: "@ + msg@,
            Error::NetworkError(msg) => "network error: "@ + msg@,
            Error::Internal(msg) => "internal error: "@ + msg@,
        }
    }

    /// The HTTP status an error is surfaced with.
    pub open spec fn status_of(self) -> u16 {
        match self {
            Error::SessionNotFound
            | Error::SessionExpired
            | Error::Unauthorized
            | Error::DpopProofRequired => 401,
            Error::InvalidGrant
            | Error::InvalidClient
            | Error::InvalidRequest(_)
            | Error::DpopNonceRequired(_)
            | Error::DpopMethodMismatch
            | Error::DpopUrlMismatch
            | Error::DpopNonceReused
            | Error::DpopExpired
            | Error::DpopInvalid => 400,
            _ => 500,
        }
    }

    /// The OAuth error code of the JSON body, for the kinds that have one.
    pub open spec fn oauth_code_of(self) -> Option<Seq<char>> {
        match self {
            Error::InvalidGrant => Some("invalid_grant"@),
            Error::InvalidClient => Some("invalid_client"@),
            Error::InvalidRequest(_) => Some("invalid_request"@),
            Error::DpopNonceRequired(_) => Some("use_dpop_nonce"@),
            _ => None,
        }
    }

    /// The description sent with an error: the request problem itself for an
    /// invalid request, the fixed sentence for a nonce challenge, the
    /// error's message otherwise.
    pub open spec fn description_of(self) -> Seq<char> {
        match self {
            Error::InvalidRequest(msg) => msg@,
            Error::DpopNonceRequired(_) => nonce_challenge_text(),
            _ => self.message_text(),
        }
    }

    /// Renders the error as text.
    pub fn message(&self) -> (text: String)
        ensures
            text@ == self.message_text(),
    {
        match self {
            Error::SessionNotFound => String::from_str("session not found"),
            Error::SessionExpired => String::from_str("session expired"),
            Error::InvalidSessionState => String::from_str("invalid session state"),
            Error::InvalidGrant => String::from_str("invalid_grant"),
            Error::InvalidRequest(msg) => String::from_str("invalid_request: ").concat(
                msg.as_str(),
            ),
            Error::InvalidClient => String::from_str("invalid_client"),
            Error::UnauthorizedClient => String::from_str("unauthorized_client"),
            Error::UnsupportedGrantType => String::from_str("unsupported_grant_type"),
            Error::Unauthorized => String::from_str("unauthorized"),
            Error::DpopProofRequired => String::from_str("DPoP proof required"),
            Error::DpopNonceRequired(_) => String::from_str("use_dpop_nonce"),
            Error::DpopMethodMismatch => String::from_str("DPoP htm mismatch"),
            Error::DpopUrlMismatch => String::from_str("DPoP htu mismatch"),
            Error::DpopNonceReused => String::from_str("DPoP nonce reused"),
            Error::DpopExpired => String::from_str("DPoP proof expired"),
            Error::DpopInvalid => String::from_str("invalid DPoP proof"),
            Error::KeyNotFound => String::from_str("key not found"),
            Error::KeyGenerationFailed => String::from_str("key generation failed"),
            Error::StorageError(msg) => String::from_str("storage error: ").concat(msg.as_str()),
            Error::NetworkError(msg) => String::from_str("network error: ").concat(msg.as_str()),
            Error::Internal(msg) => String::from_str("internal error: ").concat(msg.as_str()),
        }
    }

    /// The HTTP status code this error is answered with.
    pub fn status_code(&self) -> (status: u16)
        ensures
            status == self.status_of(),
            status == 400 || status == 401 || status == 500,
    {
        match self {
            Error::SessionNotFound
            | Error::SessionExpired
            | Error::Unauthorized
            | Error::DpopProofRequired => 401,
            Error::InvalidGrant
            | Error::InvalidClient
            | Error::InvalidRequest(_)
            | Error::DpopNonceRequired(_)
            | Error::DpopMethodMismatch
            | Error::DpopUrlMismatch
            | Error::DpopNonceReused
            | Error::DpopExpired
            | Error::DpopInvalid => 400,
            _ => 500,
        }
    }

    /// Turns the error into the response the client receives. Only a nonce
    /// challenge carries a `DPoP-Nonce` header, and it carries the nonce
    /// held by the error.
    pub fn into_response(self) -> (response: ErrorResponse)
        ensures
            response.status == self.status_of(),
            response.description@ == self.description_of(),
            match self.oauth_code_of() {
                Some(code) => response.error is Some && response.error->0@ == code,
                None => response.error is None,
            },
            match self {
                Error::DpopNonceRequired(nonce) => response.dpop_nonce == Some(nonce),
                _ => response.dpop_nonce is None,
            },
    {
        let status = self.status_code();
        match self {
            Error::DpopNonceRequired(nonce) => ErrorResponse {
                status,
                dpop_nonce: Some(nonce),
                error: Some(String::from_str("use_dpop_nonce")),
                description: String::from_str(
                    "Authorization server requires nonce in DPoP proof",
                ),
            },
            Error::InvalidRequest(msg) => ErrorResponse {
                status,
                dpop_nonce: None,
                error: Some(String::from_str("invalid_request")),
                description: msg,
            },
            Error::InvalidGrant => ErrorResponse {
                status,
                dpop_nonce: None,
                error: Some(String::from_str("invalid_grant")),
                description: String::from_str("invalid_grant"),
            },
            Error::InvalidClient => ErrorResponse {
                status,
                dpop_nonce: None,
                error: Some(String::from_str("invalid_client")),
                description: String::from_str("invalid_client"),
            },
            other => {
                let description = other.message();
                ErrorResponse { status, dpop_nonce: None, error: None, description }
            },
        }
    }
}

/// Why a request is refused before any store is asked.
pub enum RequestFault {
    /// There is no `DPoP` header.
    ProofRequired,
    /// The header or the parameters are unusable, for the given reason.
    Invalid(Seq<char>),
    /// The grant type is unknown.
    UnknownGrant,
}

/// Whether a result is the refusal for a fault: a demand for a proof, an
/// invalid request with the reason, or an invalid grant.
pub open spec fn shows_fault<T>(result: std::result::Result<T, Error>, fault: RequestFault)
    -> bool {
    match fault {
        RequestFault::ProofRequired => result matches Err(Error::DpopProofRequired),
        RequestFault::Invalid(reason) => is_invalid_request(result, reason),
        RequestFault::UnknownGrant => result matches Err(Error::InvalidGrant),
    }
}

} // verus!
