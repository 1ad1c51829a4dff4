//! Password hashing and verification over the bcrypt crate.
//!
//! The hash is salted with fresh randomness on every call, so hashing is not
//! a function of the password; what *is* a function of the password and the
//! hash alone is whether they match, and that is the name the contracts
//! speak of.

use vstd::prelude::*;

use crate::errors::AuthError;

verus! {

/// What bcrypt::verify answers for a password and a candidate hash:
/// `Some(true)` when the hash was produced from the password, `Some(false)`
/// when it is a well-formed bcrypt hash of something else, `None` when it is
/// not a recognized bcrypt encoding at all.
pub uninterp spec fn bcrypt_check(password: Seq<char>, hash: Seq<char>) -> Option<bool>;

/// Relies on bcrypt::hash with the crate's default cost: the salt is drawn
/// fresh from the OS on every call, and the produced hash is one that
/// bcrypt::verify accepts for the same password. Nothing else is assumed of
/// the output.
#[verifier::external_body]
pub fn hash_password(password: &str) -> (r: Result<String, AuthError>)
    ensures
        r is Ok ==> bcrypt_check(password@, r->Ok_0@) == Some(true),
        r is Err ==> r->Err_0 == AuthError::Internal,
{
    match bcrypt::hash(password, bcrypt::DEFAULT_COST) {
        Ok(h) => Ok(h),
        Err(_) => Err(AuthError::Internal),
    }
}

/// Relies on bcrypt::verify: it reads the salt and cost out of `hash`,
/// recomputes the hash of `password` and compares in constant time, so the
/// answer is a function of the two strings alone; it errors exactly when
/// `hash` is not a recognized bcrypt encoding.
#[verifier::external_body]
pub fn verify_password(password: &str, hash: &str) -> (r: Result<bool, AuthError>)
    ensures
        r is Ok <==> bcrypt_check(password@, hash@) is Some,
        r is Ok ==> r->Ok_0 == bcrypt_check(password@, hash@)->Some_0,
        r is Err ==> r->Err_0 == AuthError::Internal,
{
    match bcrypt::verify(password, hash) {
        Ok(v) => Ok(v),
        Err(_) => Err(AuthError::Internal),
    }
}

/// Law: verifying a password against a hash that was produced for it
/// succeeds. A hash `hash_password` returned for `p` satisfies
/// `bcrypt_check(p, h) == Some(true)`, and on such a pair `verify_password`
/// answers `Ok(true)` by its own contract.
pub proof fn lemma_hash_then_verify(p: Seq<char>, h: Seq<char>)
    requires
        bcrypt_check(p, h) == Some(true),
    ensures
        bcrypt_check(p, h) is Some,
        bcrypt_check(p, h)->Some_0,
{
}

} // verus!
