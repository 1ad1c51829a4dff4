//! The failure taxonomy of the API and the single JSON error envelope.
//!
//! Internally the kinds stay distinguishable (for logging and for the flows'
//! contracts); the envelope collapses every credential-shaped failure of a
//! protected route into one identical `401` answer, so that a client cannot
//! tell a missing header from a malformed one, an expired token from a
//! forged one.

use vstd::prelude::*;

verus! {

/// Every way a request can fail inside the core.
#[derive(Clone, Copy, Debug, PartialEq, Eq, Structural)]
pub enum AuthError {
    /// A signup body broke the input policy (empty field, short password).
    SignupValidation,
    /// A signin body broke the input policy (a missing field).
    SigninValidation,
    /// A request body could not be read at all.
    MalformedBody,
    /// No `Authorization` header was sent on a protected route.
    MissingCredentials,
    /// An `Authorization` header was sent but is not a bearer header.
    MalformedHeader,
    /// A token failed the signature or structure check.
    TokenInvalid,
    /// A token was structurally valid but past its expiry.
    TokenExpired,
    /// The subject carried by a valid token is not a well-formed id.
    InvalidSubject,
    /// Signup asked for an email or username that is already taken.
    DuplicateUser,
    /// Signin with an unknown email or a wrong password; one kind on purpose.
    InvalidCredentials,
    /// The authenticated user no longer exists.
    NotFound,
    /// The wrong HTTP method was used on a route.
    MethodNotAllowed,
    /// No signing secret is configured; the process cannot serve tokens.
    Configuration,
    /// An unexpected persistence or crypto failure; details never leave.
    Internal,
}

/// The one error shape every endpoint answers with, mirroring the HTTP status.
#[derive(Debug, Clone)]
pub struct ApiError {
    pub message: String,
    pub code: u16,
}

/// The errors a protected route turns into a `401` for credential reasons.
/// `InvalidCredentials` is deliberately outside: it belongs to signin, where
/// no token is involved, and carries its own fixed message.
pub open spec fn is_unauthorized_kind(e: AuthError) -> bool {
    ||| e == AuthError::MissingCredentials
    ||| e == AuthError::MalformedHeader
    ||| e == AuthError::TokenInvalid
    ||| e == AuthError::TokenExpired
    ||| e == AuthError::InvalidSubject
}

/// The HTTP status that `envelope` pairs with each kind.
pub open spec fn status_of(e: AuthError) -> u16 {
    if is_unauthorized_kind(e) || e == AuthError::InvalidCredentials {
        401
    } else if e == AuthError::NotFound {
        404
    } else if e == AuthError::MethodNotAllowed {
        405
    } else if e == AuthError::Configuration || e == AuthError::Internal {
        500
    } else {
        400
    }
}

/// Turn an internal failure into the client-facing envelope.
///
/// Every credential-shaped failure of a protected route maps to one and the
/// same envelope; signin failures map to one fixed envelope whether the email
/// was unknown or the password wrong.
pub fn envelope(e: &AuthError) -> (r: ApiError)
    ensures
        r.code == status_of(*e),
        is_unauthorized_kind(*e) ==> r.message@ == "Unauthorized"@,
        *e == AuthError::InvalidCredentials ==> r.message@ == "Invalid credentials"@,
        *e == AuthError::SignupValidation ==> r.message@
            == "Email, username are required and password must be at least 6 characters"@,
        *e == AuthError::SigninValidation ==> r.message@ == "Email and password are required"@,
        *e == AuthError::MalformedBody ==> r.message@ == "Invalid request body"@,
        *e == AuthError::DuplicateUser ==> r.message@
            == "User with this email or username already exists"@,
        *e == AuthError::NotFound ==> r.message@ == "User not found"@,
        *e == AuthError::MethodNotAllowed ==> r.message@ == "Method not allowed"@,
        *e == AuthError::Configuration ==> r.message@ == "Server configuration error"@,
        *e == AuthError::Internal ==> r.message@ == "Database error"@,
{
    match e {
        AuthError::SignupValidation => ApiError {
            message: String::from_str(
                "Email, username are required and password must be at least 6 characters",
            ),
            code: 400,
        },
        AuthError::SigninValidation => ApiError {
            message: String::from_str("Email and password are required"),
            code: 400,
        },
        AuthError::MalformedBody => ApiError {
            message: String::from_str("Invalid request body"),
            code: 400,
        },
        AuthError::MissingCredentials => ApiError {
            message: String::from_str("Unauthorized"),
            code: 401,
        },
        AuthError::MalformedHeader => ApiError {
            message: String::from_str("Unauthorized"),
            code: 401,
        },
        AuthError::TokenInvalid => ApiError {
            message: String::from_str("Unauthorized"),
            code: 401,
        },
        AuthError::TokenExpired => ApiError {
            message: String::from_str("Unauthorized"),
            code: 401,
        },
        AuthError::InvalidSubject => ApiError {
            message: String::from_str("Unauthorized"),
            code: 401,
        },
        AuthError::DuplicateUser => ApiError {
            message: String::from_str("User with this email or username already exists"),
            code: 400,
        },
        AuthError::InvalidCredentials => ApiError {
            message: String::from_str("Invalid credentials"),
            code: 401,
        },
        AuthError::NotFound => ApiError {
            message: String::from_str("User not found"),
            code: 404,
        },
        AuthError::MethodNotAllowed => ApiError {
            message: String::from_str("Method not allowed"),
            code: 405,
        },
        AuthError::Configuration => ApiError {
            message: String::from_str("Server configuration error"),
            code: 500,
        },
        AuthError::Internal => ApiError {
            message: String::from_str("Database error"),
            code: 500,
        },
    }
}

/// Anti-enumeration law: the envelope of every credential-shaped failure of a
/// protected route is one and the same answer, message and status alike, so
/// the response discloses nothing about why the credentials were refused.
pub proof fn lemma_unauthorized_indistinguishable(e1: AuthError, e2: AuthError)
    requires
        is_unauthorized_kind(e1),
        is_unauthorized_kind(e2),
    ensures
        status_of(e1) == 401,
        status_of(e1) == status_of(e2),
{
}

} // verus!
