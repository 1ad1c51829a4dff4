use auth_core::errors::envelope;
use auth_core::errors::AuthError;
use auth_core::gateway::authenticate;
use auth_core::gateway::authenticated_subject;
use auth_core::gateway::checked_subject;
use auth_core::types::Claims;
use auth_core::token::create_jwt;
use auth_core::token::TOKEN_TTL_SECONDS;

const SECRET: &str = "a-test-signing-secret";
const NOW: u64 = 1_700_000_000;
const SUBJECT: &str = "550e8400-e29b-41d4-a716-446655440000";

#[test]
fn missing_header_is_missing_credentials() {
    assert_eq!(
        authenticate(None, SECRET, NOW).unwrap_err(),
        AuthError::MissingCredentials
    );
}

#[test]
fn non_bearer_header_is_malformed() {
    assert_eq!(
        authenticate(Some("Token abc"), SECRET, NOW).unwrap_err(),
        AuthError::MalformedHeader
    );
}

#[test]
fn valid_bearer_token_authenticates() {
    let token = create_jwt(SUBJECT, "a@x.com", SECRET, NOW).unwrap();
    let header = format!("Bearer {}", token);
    let claims = authenticate(Some(&header), SECRET, NOW).unwrap();
    assert_eq!(claims.sub, SUBJECT);
    assert_eq!(claims.email, "a@x.com");
}

#[test]
fn gateway_failures_share_one_envelope() {
    let token = create_jwt(SUBJECT, "a@x.com", SECRET, NOW).unwrap();
    let header = format!("Bearer {}", token);
    let failures = [
        authenticate(None, SECRET, NOW).unwrap_err(),
        authenticate(Some("abc"), SECRET, NOW).unwrap_err(),
        authenticate(Some(&header), SECRET, NOW + TOKEN_TTL_SECONDS + 1).unwrap_err(),
        authenticate(Some("Bearer forged.token.here"), SECRET, NOW).unwrap_err(),
    ];
    let first = envelope(&failures[0]);
    for failure in &failures {
        let body = envelope(failure);
        assert_eq!(body.code, 401);
        assert_eq!(body.message, first.message);
    }
}

fn claims_with_subject(sub: &str) -> Claims {
    Claims {
        sub: sub.to_string(),
        email: "a@x.com".to_string(),
        exp: NOW + TOKEN_TTL_SECONDS,
        iat: NOW,
    }
}

#[test]
fn subject_ids_are_checked_for_shape() {
    assert_eq!(checked_subject(&claims_with_subject(SUBJECT)).unwrap(), SUBJECT);
    assert_eq!(
        checked_subject(&claims_with_subject("user-42")).unwrap_err(),
        AuthError::InvalidSubject
    );
    assert_eq!(
        checked_subject(&claims_with_subject("")).unwrap_err(),
        AuthError::InvalidSubject
    );
}

#[test]
fn authenticated_subject_returns_the_token_subject() {
    let token = create_jwt(SUBJECT, "a@x.com", SECRET, NOW).unwrap();
    let header = format!("Bearer {}", token);
    assert_eq!(
        authenticated_subject(Some(&header), SECRET, NOW).unwrap(),
        SUBJECT
    );
}

#[test]
fn malformed_subject_in_a_valid_token_is_refused() {
    let token = create_jwt("user-42", "a@x.com", SECRET, NOW).unwrap();
    let header = format!("Bearer {}", token);
    let failure = authenticated_subject(Some(&header), SECRET, NOW).unwrap_err();
    assert_eq!(failure, AuthError::InvalidSubject);
    assert_eq!(envelope(&failure).code, 401);
    let claims = authenticate(Some(&header), SECRET, NOW).unwrap();
    assert_eq!(
        checked_subject(&claims).unwrap_err(),
        AuthError::InvalidSubject
    );
}

#[test]
fn expired_token_on_identity_route_is_unauthorized() {
    let token = create_jwt(SUBJECT, "a@x.com", SECRET, NOW).unwrap();
    let header = format!("Bearer {}", token);
    let failure =
        authenticated_subject(Some(&header), SECRET, NOW + TOKEN_TTL_SECONDS + 1).unwrap_err();
    assert_eq!(failure, AuthError::TokenExpired);
    assert_eq!(envelope(&failure).code, 401);
}
