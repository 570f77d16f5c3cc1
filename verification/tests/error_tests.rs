use oatproxy::error::Error;

fn every_error() -> Vec<Error> {
    vec![
        Error::SessionNotFound,
        Error::SessionExpired,
        Error::InvalidSessionState,
        Error::InvalidGrant,
        Error::InvalidRequest("bad".to_string()),
        Error::InvalidClient,
        Error::UnauthorizedClient,
        Error::UnsupportedGrantType,
        Error::Unauthorized,
        Error::DpopProofRequired,
        Error::DpopNonceRequired("N1".to_string()),
        Error::DpopMethodMismatch,
        Error::DpopUrlMismatch,
        Error::DpopNonceReused,
        Error::DpopExpired,
        Error::DpopInvalid,
        Error::KeyNotFound,
        Error::KeyGenerationFailed,
        Error::StorageError("disk".to_string()),
        Error::NetworkError("down".to_string()),
        Error::Internal("oops".to_string()),
    ]
}

#[test]
fn messages_are_the_documented_texts() {
    let expected = [
        "session not found",
        "session expired",
        "invalid session state",
        "invalid_grant",
        "invalid_request: bad",
        "invalid_client",
        "unauthorized_client",
        "unsupported_grant_type",
        "unauthorized",
        "DPoP proof required",
        "use_dpop_nonce",
        "DPoP htm mismatch",
        "DPoP htu mismatch",
        "DPoP nonce reused",
        "DPoP proof expired",
        "invalid DPoP proof",
        "key not found",
        "key generation failed",
        "storage error: disk",
        "network error: down",
        "internal error: oops",
    ];
    let errors = every_error();
    assert_eq!(errors.len(), expected.len());
    for (error, text) in errors.iter().zip(expected.iter()) {
        assert_eq!(error.message(), *text);
    }
}

#[test]
fn statuses_follow_the_taxonomy() {
    let expected: [u16; 21] = [
        401, 401, 500, 400, 400, 400, 500, 500, 401, 401, 400, 400, 400, 400, 400, 400, 500, 500,
        500, 500, 500,
    ];
    let errors = every_error();
    for (error, status) in errors.iter().zip(expected.iter()) {
        assert_eq!(error.status_code(), *status, "{:?}", error);
    }
}

#[test]
fn invalid_grant_is_a_bad_request() {
    let response = Error::InvalidGrant.into_response();
    assert_eq!(response.status, 400);
    assert_eq!(response.error.as_deref(), Some("invalid_grant"));
    assert!(response.dpop_nonce.is_none());
}

#[test]
fn nonce_challenge_carries_the_nonce() {
    let response = Error::DpopNonceRequired("N1".to_string()).into_response();
    assert_eq!(response.status, 400);
    assert_eq!(response.dpop_nonce.as_deref(), Some("N1"));
    assert_eq!(response.error.as_deref(), Some("use_dpop_nonce"));
    assert_eq!(response.description, "Authorization server requires nonce in DPoP proof");
}

#[test]
fn invalid_request_describes_the_problem() {
    let response = Error::InvalidRequest("missing code".to_string()).into_response();
    assert_eq!(response.status, 400);
    assert_eq!(response.error.as_deref(), Some("invalid_request"));
    assert_eq!(response.description, "missing code");
    assert!(response.dpop_nonce.is_none());
}

#[test]
fn storage_failure_is_a_server_error_with_plain_body() {
    let response = Error::StorageError("locked".to_string()).into_response();
    assert_eq!(response.status, 500);
    assert!(response.error.is_none());
    assert_eq!(response.description, "storage error: locked");
}

#[test]
fn unauthorized_is_answered_with_401() {
    let response = Error::Unauthorized.into_response();
    assert_eq!(response.status, 401);
    assert!(response.error.is_none());
    assert_eq!(response.description, "unauthorized");
}

#[test]
fn bodies_are_json_for_oauth_errors_and_text_otherwise() {
    let challenge = Error::DpopNonceRequired("N1".to_string()).into_response();
    assert!(challenge.is_json());
    assert_eq!(
        challenge.body(),
        "{\"error\":\"use_dpop_nonce\",\"error_description\":\"Authorization server requires nonce in DPoP proof\"}"
    );
    let grant = Error::InvalidGrant.into_response();
    assert_eq!(
        grant.body(),
        "{\"error\":\"invalid_grant\",\"error_description\":\"invalid_grant\"}"
    );
    let missing = Error::SessionNotFound.into_response();
    assert!(!missing.is_json());
    assert_eq!(missing.body(), "session not found");
}
