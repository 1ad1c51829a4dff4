use auth_core::account::auth_success;
use auth_core::account::check_credentials;
use auth_core::account::prepare_new_user;
use auth_core::account::resolve_user;
use auth_core::account::validate_signin;
use auth_core::account::validate_signup;
use auth_core::errors::envelope;
use auth_core::errors::AuthError;
use auth_core::gateway::checked_subject;
use auth_core::password::hash_password;
use auth_core::password::verify_password;
use auth_core::token::verify_jwt;
use auth_core::types::CreateUserRequest;
use auth_core::types::LoginRequest;
use auth_core::types::User;
use auth_core::types::UserRecord;

const SECRET: &str = "a-test-signing-secret";
const NOW: u64 = 1_700_000_000;

fn signup_request() -> CreateUserRequest {
    CreateUserRequest {
        email: "a@x.com".to_string(),
        username: "alice".to_string(),
        password: "secret1".to_string(),
    }
}

#[test]
fn signup_validation_enforces_the_policy() {
    assert!(validate_signup(&signup_request()).is_ok());
    let mut no_email = signup_request();
    no_email.email.clear();
    assert_eq!(validate_signup(&no_email).unwrap_err(), AuthError::SignupValidation);
    let mut no_username = signup_request();
    no_username.username.clear();
    assert_eq!(
        validate_signup(&no_username).unwrap_err(),
        AuthError::SignupValidation
    );
    let mut short_password = signup_request();
    short_password.password = "five5".to_string();
    assert_eq!(
        validate_signup(&short_password).unwrap_err(),
        AuthError::SignupValidation
    );
    let mut six_chars = signup_request();
    six_chars.password = "six6ch".to_string();
    assert!(validate_signup(&six_chars).is_ok());
}

#[test]
fn password_length_is_counted_in_bytes() {
    // Three two-byte characters: six bytes, three characters - accepted.
    let mut multibyte = signup_request();
    multibyte.password = "ñññ".to_string();
    assert_eq!(multibyte.password.len(), 6);
    assert!(validate_signup(&multibyte).is_ok());
    // Two two-byte characters: four bytes - refused.
    let mut short_multibyte = signup_request();
    short_multibyte.password = "ññ".to_string();
    assert_eq!(
        validate_signup(&short_multibyte).unwrap_err(),
        AuthError::SignupValidation
    );
}

#[test]
fn signin_validation_requires_both_fields() {
    let ok = LoginRequest {
        email: "a@x.com".to_string(),
        password: "secret1".to_string(),
    };
    assert!(validate_signin(&ok).is_ok());
    let no_email = LoginRequest {
        email: String::new(),
        password: "secret1".to_string(),
    };
    assert_eq!(validate_signin(&no_email).unwrap_err(), AuthError::SigninValidation);
    let no_password = LoginRequest {
        email: "a@x.com".to_string(),
        password: String::new(),
    };
    assert_eq!(
        validate_signin(&no_password).unwrap_err(),
        AuthError::SigninValidation
    );
}

#[test]
fn signup_flow_builds_a_user_and_a_working_token() {
    let request = signup_request();
    assert!(validate_signup(&request).is_ok());
    let new_user = prepare_new_user(&request, false).unwrap();
    assert_eq!(new_user.email, "a@x.com");
    assert_eq!(new_user.username, "alice");
    let minted_claims = auth_core::types::Claims {
        sub: new_user.id.clone(),
        email: new_user.email.clone(),
        exp: NOW,
        iat: NOW,
    };
    assert_eq!(checked_subject(&minted_claims).unwrap(), new_user.id);
    assert_ne!(new_user.password_hash, "secret1");
    assert_eq!(
        verify_password("secret1", &new_user.password_hash),
        Ok(true)
    );

    let user = User {
        id: new_user.id.clone(),
        email: new_user.email.clone(),
        username: new_user.username.clone(),
        created_at: NOW as i64,
        updated_at: NOW as i64,
    };
    let response = auth_success(user, SECRET, NOW).unwrap();
    assert_eq!(response.user.email, "a@x.com");
    let claims = verify_jwt(&response.token, SECRET, NOW).unwrap();
    assert_eq!(claims.sub, new_user.id);
    assert_eq!(claims.email, "a@x.com");
}

#[test]
fn signup_refuses_a_duplicate_identity() {
    let failure = prepare_new_user(&signup_request(), true).unwrap_err();
    assert_eq!(failure, AuthError::DuplicateUser);
    let body = envelope(&failure);
    assert_eq!(body.code, 400);
    assert_eq!(body.message, "User with this email or username already exists");
}

fn stored_record() -> UserRecord {
    UserRecord {
        id: "550e8400-e29b-41d4-a716-446655440000".to_string(),
        email: "a@x.com".to_string(),
        username: "alice".to_string(),
        password_hash: hash_password("secret1").unwrap(),
        created_at: 1_600_000_000,
        updated_at: 1_600_000_000,
    }
}

#[test]
fn signin_accepts_the_right_password_and_drops_the_hash() {
    let record = stored_record();
    let user = check_credentials("secret1", Some(record.clone())).unwrap();
    assert_eq!(user.id, record.id);
    assert_eq!(user.email, record.email);
    assert_eq!(user.username, record.username);
    assert_eq!(user.created_at, record.created_at);
    assert_eq!(user.updated_at, record.updated_at);
}

#[test]
fn signin_failures_are_undifferentiated() {
    let record = stored_record();
    let wrong_password = check_credentials("secret2", Some(record)).unwrap_err();
    let unknown_email = check_credentials("secret1", None).unwrap_err();
    assert_eq!(wrong_password, AuthError::InvalidCredentials);
    assert_eq!(unknown_email, AuthError::InvalidCredentials);
    let first = envelope(&wrong_password);
    let second = envelope(&unknown_email);
    assert_eq!(first.code, 401);
    assert_eq!(first.code, second.code);
    assert_eq!(first.message, second.message);
}

#[test]
fn empty_secret_fails_signup_completion() {
    let user = User {
        id: "550e8400-e29b-41d4-a716-446655440000".to_string(),
        email: "a@x.com".to_string(),
        username: "alice".to_string(),
        created_at: 0,
        updated_at: 0,
    };
    assert_eq!(
        auth_success(user, "", NOW).unwrap_err(),
        AuthError::Configuration
    );
}

#[test]
fn identity_lookup_outcome_maps_to_user_or_not_found() {
    let user = User {
        id: "550e8400-e29b-41d4-a716-446655440000".to_string(),
        email: "a@x.com".to_string(),
        username: "alice".to_string(),
        created_at: 0,
        updated_at: 0,
    };
    let resolved = resolve_user(Some(user.clone())).unwrap();
    assert_eq!(resolved.email, user.email);
    let failure = resolve_user(None).unwrap_err();
    assert_eq!(failure, AuthError::NotFound);
    let body = envelope(&failure);
    assert_eq!(body.code, 404);
    assert_eq!(body.message, "User not found");
}
