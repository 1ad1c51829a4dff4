//! The signup and signin decisions, separated from the store that carries
//! them out.
//!
//! The caller does the lookups and the insert; everything that is judged —
//! input policy, the duplicate refusal, the credential check, the shaping of
//! the response — is decided here. Signin answers one and the same failure
//! whether the email is unknown or the password is wrong.

use vstd::prelude::*;

use crate::errors::AuthError;
use crate::ids::new_user_id;
use crate::ids::uuid_wellformed;
use crate::password::bcrypt_check;
use crate::password::hash_password;
use crate::password::verify_password;
use crate::token::create_jwt;
use crate::token::jwt_decoding;
use crate::token::jwt_encoding;
use crate::token::TOKEN_TTL_SECONDS;
use crate::types::AuthResponse;
use crate::types::CreateUserRequest;
use crate::types::LoginRequest;
use crate::types::NewUser;
use crate::types::User;
use crate::types::UserRecord;
use vstd::utf8::encode_utf8;

verus! {

/// The input policy of signup: both names non-empty, password at least six
/// bytes in its UTF-8 form.
pub open spec fn signup_request_ok(
    email: Seq<char>,
    username: Seq<char>,
    password: Seq<char>,
) -> bool {
    email.len() > 0 && username.len() > 0 && encode_utf8(password).len() >= 6
}

/// The input policy of signin: email and password non-empty.
pub open spec fn signin_request_ok(email: Seq<char>, password: Seq<char>) -> bool {
    email.len() > 0 && password.len() > 0
}

/// Judge a signup body against the input policy.
pub fn validate_signup(req: &CreateUserRequest) -> (r: Result<(), AuthError>)
    ensures
        r is Ok <==> signup_request_ok(req.email@, req.username@, req.password@),
        r is Err ==> r->Err_0 == AuthError::SignupValidation,
{
    if req.email.as_str().is_empty() || req.username.as_str().is_empty()
        || req.password.as_str().as_bytes().len() < 6 {
        Err(AuthError::SignupValidation)
    } else {
        Ok(())
    }
}

/// Judge a signin body against the input policy.
pub fn validate_signin(req: &LoginRequest) -> (r: Result<(), AuthError>)
    ensures
        r is Ok <==> signin_request_ok(req.email@, req.password@),
        r is Err ==> r->Err_0 == AuthError::SigninValidation,
{
    if req.email.as_str().is_empty() || req.password.as_str().is_empty() {
        Err(AuthError::SigninValidation)
    } else {
        Ok(())
    }
}

/// The signup decision after the store answered whether the email or
/// username is already taken: refuse a duplicate, otherwise hash the
/// password and mint a fresh subject id for the record the store will
/// persist. The plaintext password goes no further than the hash call.
pub fn prepare_new_user(req: &CreateUserRequest, duplicate_exists: bool) -> (r: Result<
    NewUser,
    AuthError,
>)
    ensures
        duplicate_exists <==> r is Err && r->Err_0 == AuthError::DuplicateUser,
        r is Ok ==> r->Ok_0.email@ == req.email@ && r->Ok_0.username@ == req.username@,
        r is Ok ==> bcrypt_check(req.password@, r->Ok_0.password_hash@) == Some(true),
        r is Ok ==> uuid_wellformed(r->Ok_0.id@),
        r is Err ==> r->Err_0 == AuthError::DuplicateUser || r->Err_0 == AuthError::Internal,
{
    if duplicate_exists {
        return Err(AuthError::DuplicateUser);
    }
    let password_hash = match hash_password(req.password.as_str()) {
        Ok(h) => h,
        Err(e) => {
            return Err(e);
        },
    };
    let id = new_user_id();
    Ok(
        NewUser {
            id,
            email: req.email.clone(),
            username: req.username.clone(),
            password_hash,
        },
    )
}

/// Whether a signin attempt is accepted: a user was found under the email
/// and the password matches the stored hash.
pub open spec fn credentials_accepted(password: Seq<char>, stored: Option<UserRecord>) -> bool {
    stored is Some && bcrypt_check(password, stored->Some_0.password_hash@) == Some(true)
}

/// The signin decision after the store answered the lookup by email: accept
/// exactly when a user was found and the password matches its hash, and
/// answer every refusal — unknown email, wrong password, unreadable hash —
/// with the one undifferentiated failure, alike in timing: the unknown-email
/// branch still pays for one bcrypt verification. The accepted user is returned
/// without the hash: the response-facing shape has no such field.
pub fn check_credentials(password: &str, stored: Option<UserRecord>) -> (r: Result<
    User,
    AuthError,
>)
    ensures
        r is Ok <==> credentials_accepted(password@, stored),
        r is Ok ==> {
            let rec = stored->Some_0;
            r->Ok_0.id@ == rec.id@ && r->Ok_0.email@ == rec.email@ && r->Ok_0.username@
                == rec.username@ && r->Ok_0.created_at == rec.created_at && r->Ok_0.updated_at
                == rec.updated_at
        },
        r is Err ==> r->Err_0 == AuthError::InvalidCredentials,
{
    let rec = match stored {
        Some(rec) => rec,
        None => {
            // Unknown email must take as long as a wrong password: burn one
            // bcrypt verification against a fixed well-formed hash before
            // answering, so the two refusals are alike in timing as well as
            // in message.
            let _burned = verify_password(
                password,
                "$2y$12$L6Bc/AlTQHyd9liGgGEZyOFLPHNgyxeEPfgYfBCVxJ7JIlwxyVU3u",
            );
            return Err(AuthError::InvalidCredentials);
        },
    };
    match verify_password(password, rec.password_hash.as_str()) {
        Ok(true) => Ok(
            User {
                id: rec.id,
                email: rec.email,
                username: rec.username,
                created_at: rec.created_at,
                updated_at: rec.updated_at,
            },
        ),
        _ => Err(AuthError::InvalidCredentials),
    }
}

/// The shared tail of signup and signin: issue a token for the user at
/// instant `now` and shape the response body. With a configured secret the
/// response is owed; an unconfigured secret is the one failure.
pub fn auth_success(user: User, secret: &str, now: u64) -> (r: Result<AuthResponse, AuthError>)
    requires
        now + TOKEN_TTL_SECONDS <= u64::MAX,
    ensures
        r is Ok <==> secret@.len() > 0,
        r is Err ==> r->Err_0 == AuthError::Configuration,
        r is Ok ==> r->Ok_0.user == user,
        r is Ok ==> r->Ok_0.token@ == jwt_encoding(
            user.id@,
            user.email@,
            now,
            (now + TOKEN_TTL_SECONDS) as u64,
            secret@,
        ),
        r is Ok ==> jwt_decoding(r->Ok_0.token@, secret@) == Some(
            (user.id@, user.email@, now, (now + TOKEN_TTL_SECONDS) as u64),
        ),
{
    let token = match create_jwt(user.id.as_str(), user.email.as_str(), secret, now) {
        Ok(t) => t,
        Err(e) => {
            return Err(e);
        },
    };
    Ok(AuthResponse { user, token })
}

/// The identity route's decision after the store answered the lookup by id:
/// the user, or the one case in which a valid token outlives its user.
pub fn resolve_user(found: Option<User>) -> (r: Result<User, AuthError>)
    ensures
        found is Some ==> r is Ok && r->Ok_0 == found->Some_0,
        found is None ==> r is Err && r->Err_0 == AuthError::NotFound,
{
    match found {
        Some(user) => Ok(user),
        None => Err(AuthError::NotFound),
    }
}

} // verus!
