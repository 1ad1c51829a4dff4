//! The one authentication step every protected route goes through: from the
//! optional `Authorization` header to verified claims, or to the exact
//! failure kind. No route parses the header or judges a token on its own.

use vstd::prelude::*;

use crate::bearer::bearer_token_of;
use crate::bearer::extract_bearer_token;
use crate::errors::AuthError;
use crate::ids::subject_id_is_wellformed;
use crate::ids::uuid_wellformed;
use crate::token::token_verdict;
use crate::token::verify_jwt;
use crate::types::Claims;

verus! {

/// The view of the optional header value.
pub open spec fn header_view(header: Option<&str>) -> Option<Seq<char>> {
    match header {
        Some(h) => Some(h@),
        None => None,
    }
}

/// The verdict of the whole gateway: no header is missing credentials, a
/// non-bearer header is malformed, and a bearer token is judged by
/// `token_verdict` against the secret and the clock.
pub open spec fn gateway_verdict(header: Option<Seq<char>>, secret: Seq<char>, now: u64) -> Result<
    (Seq<char>, Seq<char>, u64, u64),
    AuthError,
> {
    match header {
        None => Err(AuthError::MissingCredentials),
        Some(h) => match bearer_token_of(h) {
            None => Err(AuthError::MalformedHeader),
            Some(token) => token_verdict(token, secret, now),
        },
    }
}

/// Authenticate a request from its `Authorization` header, the configured
/// secret and the current instant. The answer follows `gateway_verdict`
/// exactly; every failing kind surfaces as the same unauthorized envelope.
pub fn authenticate(header: Option<&str>, secret: &str, now: u64) -> (r: Result<Claims, AuthError>)
    ensures
        r is Ok <==> gateway_verdict(header_view(header), secret@, now) is Ok,
        r is Ok ==> r->Ok_0@ == (
            gateway_verdict(header_view(header), secret@, now)->Ok_0.0,
            gateway_verdict(header_view(header), secret@, now)->Ok_0.1,
            gateway_verdict(header_view(header), secret@, now)->Ok_0.2,
            gateway_verdict(header_view(header), secret@, now)->Ok_0.3,
        ),
        r is Err ==> r->Err_0 == gateway_verdict(header_view(header), secret@, now)->Err_0,
{
    let header_value = match header {
        Some(h) => h,
        None => {
            return Err(AuthError::MissingCredentials);
        },
    };
    let token = match extract_bearer_token(header_value) {
        Ok(t) => t,
        Err(e) => {
            return Err(e);
        },
    };
    verify_jwt(token, secret, now)
}

/// The subject id out of verified claims, refused when it is not a
/// well-formed id; a protected route that must look the user up goes through
/// this before touching the store.
pub fn checked_subject(claims: &Claims) -> (r: Result<String, AuthError>)
    ensures
        r is Ok <==> uuid_wellformed(claims.sub@),
        r is Ok ==> r->Ok_0@ == claims.sub@,
        r is Err ==> r->Err_0 == AuthError::InvalidSubject,
{
    if subject_id_is_wellformed(claims.sub.as_str()) {
        Ok(claims.sub.clone())
    } else {
        Err(AuthError::InvalidSubject)
    }
}

/// The whole pre-store part of the identity route: authenticate the header,
/// then insist on a well-formed subject id. What comes back is the id to
/// look up.
pub fn authenticated_subject(header: Option<&str>, secret: &str, now: u64) -> (r: Result<
    String,
    AuthError,
>)
    ensures
        r is Ok <==> (gateway_verdict(header_view(header), secret@, now) is Ok && uuid_wellformed(
            gateway_verdict(header_view(header), secret@, now)->Ok_0.0,
        )),
        r is Ok ==> r->Ok_0@ == gateway_verdict(header_view(header), secret@, now)->Ok_0.0,
        r is Err && gateway_verdict(header_view(header), secret@, now) is Err ==> r->Err_0
            == gateway_verdict(header_view(header), secret@, now)->Err_0,
        r is Err && gateway_verdict(header_view(header), secret@, now) is Ok ==> r->Err_0
            == AuthError::InvalidSubject,
{
    let claims = match authenticate(header, secret, now) {
        Ok(c) => c,
        Err(e) => {
            return Err(e);
        },
    };
    checked_subject(&claims)
}

} // verus!
