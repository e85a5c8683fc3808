use auth_backend::config::AppConfig;
use auth_backend::response::{Body, Response};
use auth_backend::state::{bearer_token, AppState, AuthError, SessionRegistry};
use auth_backend::token::{encode_token, encode_token_at, TokenClaims, TokenError};

fn mock_state() -> AppState {
    let config = AppConfig {
        database_url: "postgres://localhost:5432/postgres".to_string(),
        bind_address: "127.0.0.1:8080".to_string(),
        jwt_secret: "test-secret".to_string(),
    };

    AppState::new(config)
}

#[test]
fn validate_token_accepts_valid_token() {
    let state = mock_state();
    let token =
        encode_token(&state.config.jwt_secret, 7).expect("token should encode successfully");

    let claims = state
        .validate_token(&token)
        .expect("token should validate successfully");

    assert_eq!(claims.sub, 7);
}

#[test]
fn validate_token_rejects_revoked_token() {
    let mut state = mock_state();
    let token =
        encode_token(&state.config.jwt_secret, 5).expect("token should encode successfully");

    assert!(state.revoke_token(&token).expect("lock should not fail"));
    let result = state.validate_token(&token);

    assert!(matches!(result, Err(AuthError::RevokedToken)));
}

#[test]
fn revoke_token_is_idempotent() {
    let mut state = mock_state();
    let token = "dummy-token";

    assert!(state.revoke_token(token).unwrap());
    assert!(!state.revoke_token(token).unwrap());
}

#[test]
fn bearer_token_extracts_header_value() {
    let token = bearer_token(Some("Bearer some-token")).expect("token should be extracted");
    assert_eq!(token, "some-token");
}

#[test]
fn bearer_token_errors_without_header() {
    let result = bearer_token(None);
    assert!(matches!(result, Err(AuthError::MissingHeader)));
}

#[test]
fn bearer_token_errors_on_another_scheme() {
    assert_eq!(bearer_token(Some("Basic dXNlcjpwdw==")), Err(AuthError::MissingHeader));
    assert_eq!(bearer_token(Some("bearer some-token")), Err(AuthError::MissingHeader));
    assert_eq!(bearer_token(Some("")), Err(AuthError::MissingHeader));
    assert_eq!(bearer_token(Some("Bearer  spaced  ")), Ok("spaced".to_string()));
}

#[test]
fn new_state_has_nothing_revoked() {
    let state = mock_state();
    assert!(!state.is_revoked("dummy-token"));
    assert!(!state.is_revoked(""));
    assert_eq!(state.revoked_tokens.len(), 0);
    assert_eq!(state.config.jwt_secret, "test-secret");
}

#[test]
fn revoke_returns_true_exactly_once_per_token() {
    let mut state = mock_state();
    let run = ["a", "b", "a", "c", "b", "a", "", ""];
    let expected = [true, true, false, true, false, false, true, false];
    for (token, first) in run.iter().zip(expected) {
        assert_eq!(state.revoke_token(token), Ok(first), "{:?}", token);
        assert!(state.is_revoked(token));
    }
    for token in ["a", "b", "c", ""] {
        assert!(state.is_revoked(token));
    }
    assert!(!state.is_revoked("d"));
    assert_eq!(state.revoked_tokens.len(), 4);
    assert_eq!(state.config.jwt_secret, "test-secret");
}

#[test]
fn validation_at_a_given_time() {
    let mut state = mock_state();
    let token = encode_token_at("test-secret", 7, 1_000).expect("token should encode");
    let claims = TokenClaims { sub: 7, exp: 2_800 };

    assert_eq!(state.validate_token_at(&token, 1_000), Ok(claims));
    assert_eq!(state.validate_token_at(&token, 2_799), Ok(claims));
    assert_eq!(state.validate_token_at(&token, 2_800), Err(AuthError::InvalidToken));
    assert_eq!(state.validate_token_at("dummy-token", 0), Err(AuthError::InvalidToken));

    assert_eq!(state.revoke_token(&token), Ok(true));
    assert_eq!(state.validate_token_at(&token, 1_000), Err(AuthError::RevokedToken));
    // An expired token is reported as invalid, revoked or not.
    assert_eq!(state.validate_token_at(&token, 2_800), Err(AuthError::InvalidToken));
    assert_eq!(state.validate_token(&token), Err(AuthError::InvalidToken));
}

#[test]
fn validation_uses_the_configured_secret() {
    let state = mock_state();
    let foreign = encode_token("another-secret", 7).expect("token should encode");
    assert_eq!(state.validate_token(&foreign), Err(AuthError::InvalidToken));
}

#[test]
fn revoking_one_token_leaves_others_valid() {
    let mut state = mock_state();
    let first = encode_token("test-secret", 1).expect("token should encode");
    let second = encode_token("test-secret", 2).expect("token should encode");
    assert_eq!(state.revoke_token(&first), Ok(true));
    assert_eq!(state.validate_token(&first), Err(AuthError::RevokedToken));
    assert_eq!(state.validate_token(&second).map(|claims| claims.sub), Ok(2));
}

#[test]
fn auth_error_status_and_text() {
    let cases = [
        (AuthError::InvalidToken, 401, "Invalid or expired token"),
        (AuthError::RevokedToken, 401, "Token has been revoked"),
        (AuthError::MissingHeader, 400, "Missing Authorization header"),
        (AuthError::LockError, 500, "Internal lock error"),
    ];
    for (error, status, text) in cases {
        assert_eq!(error.status_code(), status);
        assert_eq!(error.message(), text);
        assert_eq!(
            error.error_response(),
            Response { status, body: Body::Text(text.to_string()) }
        );
    }
}

#[test]
fn judging_a_decoded_token() {
    let mut state = mock_state();
    let claims = TokenClaims { sub: 7, exp: 2_800 };
    assert_eq!(state.judge_decoded("t", Ok(claims)), Ok(claims));
    assert_eq!(state.judge_decoded("t", Err(TokenError::Invalid)), Err(AuthError::InvalidToken));
    assert_eq!(state.revoke_token("t"), Ok(true));
    assert_eq!(state.judge_decoded("t", Ok(claims)), Err(AuthError::RevokedToken));
    assert_eq!(state.judge_decoded("t", Err(TokenError::Invalid)), Err(AuthError::InvalidToken));
    assert_eq!(state.judge_decoded("u", Ok(claims)), Ok(claims));
}

#[test]
fn registry_starts_empty_and_only_grows() {
    let mut registry = SessionRegistry::new();
    assert_eq!(registry.len(), 0);
    assert!(!registry.is_revoked("a"));
    assert!(registry.revoke("a"));
    assert!(registry.is_revoked("a"));
    assert!(!registry.revoke("a"));
    assert!(registry.revoke("A"));
    assert!(registry.revoke("a "));
    assert_eq!(registry.len(), 3);
    assert!(registry.is_revoked("a") && registry.is_revoked("A") && registry.is_revoked("a "));
    assert!(!registry.is_revoked(" a"));
}
