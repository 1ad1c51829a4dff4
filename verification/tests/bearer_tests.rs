use auth_core::bearer::extract_bearer_token;
use auth_core::errors::AuthError;

#[test]
fn extract_returns_token_after_prefix() {
    assert_eq!(extract_bearer_token("Bearer abc123"), Ok("abc123"));
    assert_eq!(extract_bearer_token("Bearer a"), Ok("a"));
    assert_eq!(
        extract_bearer_token("Bearer a.b.c with spaces"),
        Ok("a.b.c with spaces")
    );
}

#[test]
fn extract_rejects_missing_prefix() {
    assert_eq!(
        extract_bearer_token("abc123"),
        Err(AuthError::MalformedHeader)
    );
    assert_eq!(
        extract_bearer_token("Basic abc123"),
        Err(AuthError::MalformedHeader)
    );
}

#[test]
fn extract_rejects_bare_word_and_empty_value() {
    assert_eq!(
        extract_bearer_token("Bearer"),
        Err(AuthError::MalformedHeader)
    );
    assert_eq!(extract_bearer_token(""), Err(AuthError::MalformedHeader));
}

#[test]
fn extract_rejects_prefix_with_no_token() {
    assert_eq!(
        extract_bearer_token("Bearer "),
        Err(AuthError::MalformedHeader)
    );
}

#[test]
fn extract_is_case_sensitive_about_the_prefix() {
    assert_eq!(
        extract_bearer_token("bearer abc123"),
        Err(AuthError::MalformedHeader)
    );
    assert_eq!(
        extract_bearer_token("BEARER abc123"),
        Err(AuthError::MalformedHeader)
    );
}
