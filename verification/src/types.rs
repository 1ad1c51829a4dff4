//! The data the API speaks about, as plain values.
//!
//! Timestamps are Unix seconds and ids are the textual form of a unique
//! subject id, so that every rule over them is a rule over integers and
//! strings. The response-facing `User` has no password-hash field at all:
//! the hash lives only in `UserRecord`, the store-facing shape, and in
//! `NewUser`, the record a signup asks the store to persist.

use vstd::prelude::*;

verus! {

/// The authenticated principal as every response shows it.
#[derive(Debug, Clone)]
pub struct User {
    pub id: String,
    pub email: String,
    pub username: String,
    pub created_at: i64,
    pub updated_at: i64,
}

/// A stored user as the store hands it back for signin: the public fields
/// plus the password hash, which never travels further than the credential
/// check.
#[derive(Debug, Clone)]
pub struct UserRecord {
    pub id: String,
    pub email: String,
    pub username: String,
    pub password_hash: String,
    pub created_at: i64,
    pub updated_at: i64,
}

/// What signup asks the store to persist; the store adds the timestamps.
#[derive(Debug, Clone)]
pub struct NewUser {
    pub id: String,
    pub email: String,
    pub username: String,
    pub password_hash: String,
}

/// A signup request body.
#[derive(Debug, Clone)]
pub struct CreateUserRequest {
    pub email: String,
    pub username: String,
    pub password: String,
}

/// A signin request body.
#[derive(Debug, Clone)]
pub struct LoginRequest {
    pub email: String,
    pub password: String,
}

/// The body of a successful signup or signin.
#[derive(Debug, Clone)]
pub struct AuthResponse {
    pub user: User,
    pub token: String,
}

/// The payload carried inside a session token: subject id, email, and the
/// expiry and issue instants in Unix seconds.
#[derive(Debug, Clone)]
pub struct Claims {
    pub sub: String,
    pub email: String,
    pub exp: u64,
    pub iat: u64,
}

impl View for Claims {
    type V = (Seq<char>, Seq<char>, u64, u64);

    open spec fn view(&self) -> (Seq<char>, Seq<char>, u64, u64) {
        (self.sub@, self.email@, self.iat, self.exp)
    }
}

/// One item of the sample resource listing; the price is in cents, so that
/// it stays an integer.
#[derive(Debug, Clone)]
pub struct Product {
    pub id: String,
    pub name: String,
    pub price_cents: u64,
}

} // verus!
