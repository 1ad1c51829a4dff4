//! The session-token codec: issue and verify compact signed tokens carrying
//! the subject id, the email and the issue and expiry instants.
//!
//! The signing and the signature check are the jsonwebtoken crate's work,
//! behind two trusted wrappers that are deterministic in the token and the
//! secret: the wrapper that checks a token has the expiry validation of the
//! crate turned off, and the expiry is judged here, in verified code,
//! against a caller-supplied clock. A token lives for 24 hours from its
//! issue instant.

use vstd::prelude::*;

use crate::errors::AuthError;
use crate::types::Claims;

verus! {

/// How long an issued token stays valid, in seconds: 24 hours.
pub const TOKEN_TTL_SECONDS: u64 = 86400;

/// The signed token that jsonwebtoken::encode produces over an HS256 header
/// for this payload and secret. Stated only by name: the base64 and HMAC
/// details are the crate's.
pub uninterp spec fn jwt_encoding(
    sub: Seq<char>,
    email: Seq<char>,
    iat: u64,
    exp: u64,
    secret: Seq<char>,
) -> Seq<char>;

/// What jsonwebtoken::decode over HS256, with the expiry validation turned
/// off, answers for a token and a secret: the payload fields
/// `(sub, email, iat, exp)` when the token is well-formed, carries them and
/// its signature matches the secret; `None` on any rejection.
pub uninterp spec fn jwt_decoding(token: Seq<char>, secret: Seq<char>) -> Option<
    (Seq<char>, Seq<char>, u64, u64),
>;

/// Relies on jsonwebtoken::encode with the default (HS256) header and the
/// crate's RustCrypto provider, the default built here: an HMAC key of any
/// length is accepted and signing a string-keyed JSON payload cannot fail,
/// so a token is always returned. It is a deterministic function of the
/// payload and the secret, and jsonwebtoken::decode with the same secret and
/// algorithm accepts it and returns exactly the payload that was signed.
#[verifier::external_body]
fn jwt_encode(sub: &str, email: &str, iat: u64, exp: u64, secret: &str) -> (r: String)
    ensures
        r@ == jwt_encoding(sub@, email@, iat, exp, secret@),
        jwt_decoding(r@, secret@) == Some((sub@, email@, iat, exp)),
{
    let mut payload = serde_json::Map::new();
    payload.insert(String::from("sub"), serde_json::Value::from(sub));
    payload.insert(String::from("email"), serde_json::Value::from(email));
    payload.insert(String::from("iat"), serde_json::Value::from(iat));
    payload.insert(String::from("exp"), serde_json::Value::from(exp));
    let key = jsonwebtoken::EncodingKey::from_secret(secret.as_bytes());
    let claims = serde_json::Value::Object(payload);
    jsonwebtoken::encode(&jsonwebtoken::Header::default(), &claims, &key)
        .expect("HMAC signing of a string-keyed JSON payload cannot fail")
}

/// Relies on jsonwebtoken::decode restricted to HS256, with `validate_exp`
/// turned off so that no clock is read: whether the token parses, names
/// HS256, carries the payload fields and has a signature matching the secret
/// is a function of the token and the secret alone.
#[verifier::external_body]
fn jwt_decode(token: &str, secret: &str) -> (r: Option<(String, String, u64, u64)>)
    ensures
        r is Some <==> jwt_decoding(token@, secret@) is Some,
        r is Some ==> jwt_decoding(token@, secret@) == Some(
            (r->Some_0.0@, r->Some_0.1@, r->Some_0.2, r->Some_0.3),
        ),
{
    let mut validation = jsonwebtoken::Validation::new(jsonwebtoken::Algorithm::HS256);
    validation.validate_exp = false;
    let key = jsonwebtoken::DecodingKey::from_secret(secret.as_bytes());
    let data = jsonwebtoken::decode::<serde_json::Value>(token, &key, &validation).ok()?.claims;
    let sub = data.get("sub").and_then(serde_json::Value::as_str)?;
    let email = data.get("email").and_then(serde_json::Value::as_str)?;
    let iat = data.get("iat").and_then(serde_json::Value::as_u64)?;
    let exp = data.get("exp").and_then(serde_json::Value::as_u64)?;
    Some((String::from(sub), String::from(email), iat, exp))
}

/// A clock reading clamped into the range the token arithmetic works in.
pub fn clamp_clock(t: i64) -> (r: u64)
    ensures
        0 <= t <= u64::MAX - TOKEN_TTL_SECONDS ==> r == t,
        r <= u64::MAX - TOKEN_TTL_SECONDS,
{
    if t < 0 {
        0
    } else {
        let t_wide: u64 = t as u64;
        if t_wide <= u64::MAX - TOKEN_TTL_SECONDS {
            t_wide
        } else {
            u64::MAX - TOKEN_TTL_SECONDS
        }
    }
}

/// The verdict on a token checked against `secret` at instant `now`: the
/// payload when the signature holds and the expiry has not passed, otherwise
/// which failure it is. This is the one meaning of "a token is good" in the
/// whole crate.
pub open spec fn token_verdict(token: Seq<char>, secret: Seq<char>, now: u64) -> Result<
    (Seq<char>, Seq<char>, u64, u64),
    AuthError,
> {
    if secret.len() == 0 {
        Err(AuthError::Configuration)
    } else {
        match jwt_decoding(token, secret) {
            Some(payload) => if now <= payload.3 {
                Ok(payload)
            } else {
                Err(AuthError::TokenExpired)
            },
            None => Err(AuthError::TokenInvalid),
        }
    }
}

/// Issue a token for `user_id` and `email` at instant `now`: it carries
/// `issued_at == now` and `expires_at == now + 24h`, signed with `secret`.
/// An unconfigured (empty) secret is the one failure, refused rather than
/// defaulted; with a configured secret a token is owed.
pub fn create_jwt(user_id: &str, email: &str, secret: &str, now: u64) -> (r: Result<
    String,
    AuthError,
>)
    requires
        now + TOKEN_TTL_SECONDS <= u64::MAX,
    ensures
        r is Ok <==> secret@.len() > 0,
        r is Err ==> r->Err_0 == AuthError::Configuration,
        r is Ok ==> r->Ok_0@ == jwt_encoding(
            user_id@,
            email@,
            now,
            (now + TOKEN_TTL_SECONDS) as u64,
            secret@,
        ),
        r is Ok ==> jwt_decoding(r->Ok_0@, secret@) == Some(
            (user_id@, email@, now, (now + TOKEN_TTL_SECONDS) as u64),
        ),
{
    if secret.is_empty() {
        return Err(AuthError::Configuration);
    }
    let exp = now + TOKEN_TTL_SECONDS;
    Ok(jwt_encode(user_id, email, now, exp, secret))
}

/// Check a token against `secret` at instant `now` and reconstruct its
/// claims. The answer follows `token_verdict` exactly: a signature or
/// structure failure is `TokenInvalid`, a structurally good token with
/// `now > expires_at` is `TokenExpired`, and both surface as the same
/// unauthorized answer at the envelope.
pub fn verify_jwt(token: &str, secret: &str, now: u64) -> (r: Result<Claims, AuthError>)
    ensures
        r is Ok <==> token_verdict(token@, secret@, now) is Ok,
        r is Ok ==> r->Ok_0@ == (
            token_verdict(token@, secret@, now)->Ok_0.0,
            token_verdict(token@, secret@, now)->Ok_0.1,
            token_verdict(token@, secret@, now)->Ok_0.2,
            token_verdict(token@, secret@, now)->Ok_0.3,
        ),
        r is Err ==> r->Err_0 == token_verdict(token@, secret@, now)->Err_0,
{
    if secret.is_empty() {
        return Err(AuthError::Configuration);
    }
    match jwt_decode(token, secret) {
        Some((sub, email, iat, exp)) => {
            if now <= exp {
                Ok(Claims { sub, email, exp, iat })
            } else {
                Err(AuthError::TokenExpired)
            }
        },
        None => Err(AuthError::TokenInvalid),
    }
}

/// Round-trip law: a token issued for `(sub, email)` at instant `now` with a
/// configured secret — one carrying the postcondition of `create_jwt` —
/// verifies at any instant up to its expiry with the same secret, and the
/// claims it yields carry exactly that subject and email, with
/// `issued_at == now` and `expires_at == now + 24h`. In particular it
/// verifies immediately after issuance.
pub proof fn lemma_issue_then_verify(
    sub: Seq<char>,
    email: Seq<char>,
    now: u64,
    at: u64,
    secret: Seq<char>,
    token: Seq<char>,
)
    requires
        secret.len() > 0,
        now + TOKEN_TTL_SECONDS <= u64::MAX,
        token == jwt_encoding(sub, email, now, (now + TOKEN_TTL_SECONDS) as u64, secret),
        jwt_decoding(token, secret) == Some(
            (sub, email, now, (now + TOKEN_TTL_SECONDS) as u64),
        ),
        at <= now + TOKEN_TTL_SECONDS,
    ensures
        token_verdict(token, secret, at) is Ok,
        token_verdict(token, secret, at)->Ok_0.0 == sub,
        token_verdict(token, secret, at)->Ok_0.1 == email,
        token_verdict(token, secret, at)->Ok_0.2 == now,
        token_verdict(token, secret, at)->Ok_0.3 == now + TOKEN_TTL_SECONDS,
{
}

/// Expiry law: with a configured secret, a token whose decoded expiry lies
/// before the clock never verifies — the verdict is the expired failure, an
/// unauthorized-class kind that the envelope answers with the same `401` as
/// every other credential failure. Conversely, a verdict can only be good
/// when the clock has not passed the expiry.
pub proof fn lemma_expired_token_rejected(token: Seq<char>, secret: Seq<char>, now: u64)
    requires
        secret.len() > 0,
    ensures
        jwt_decoding(token, secret) is Some && now > jwt_decoding(token, secret)->Some_0.3
            ==> token_verdict(token, secret, now) is Err && token_verdict(token, secret, now)->Err_0
            == AuthError::TokenExpired && crate::errors::is_unauthorized_kind(
            token_verdict(token, secret, now)->Err_0,
        ) && crate::errors::status_of(token_verdict(token, secret, now)->Err_0) == 401,
        token_verdict(token, secret, now) is Ok ==> now <= jwt_decoding(
            token,
            secret,
        )->Some_0.3,
{
}

} // verus!
