//! Core logic of a token-authenticated user API: password hashing,
//! session-token issuance and verification, bearer-header parsing, the
//! authentication gateway shared by all protected endpoints, the signup and
//! signin decisions, and the error envelope returned to clients.
//!
//! All I/O (HTTP, database, environment) stays outside this crate; every
//! function here is a pure decision over plain values, with the calls into
//! the hashing and token libraries behind trusted wrappers.

pub mod account;
pub mod bearer;
pub mod errors;
pub mod gateway;
pub mod ids;
pub mod password;
pub mod products;
pub mod routing;
pub mod token;
pub mod types;
