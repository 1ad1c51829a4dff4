//! Parsing an `Authorization` header value into the raw bearer token.
//!
//! The value must start with the literal prefix `"Bearer "` — case-sensitive,
//! single space — and carry at least one character after it; the token is
//! what follows the prefix.

use vstd::prelude::*;

use crate::errors::AuthError;

verus! {

/// The token inside a header value, if the value is a well-formed bearer
/// header: the exact prefix `"Bearer "` followed by a non-empty remainder.
pub open spec fn bearer_token_of(header: Seq<char>) -> Option<Seq<char>> {
    if header.len() > 7 && header.subrange(0, 7) == "Bearer "@ {
        Some(header.skip(7))
    } else {
        None
    }
}

/// Parse an `Authorization` header value. An empty value, a value without
/// the exact `"Bearer "` prefix, and the bare prefix with no token after it
/// are all refused as malformed.
pub fn extract_bearer_token<'a>(auth_header: &'a str) -> (r: Result<&'a str, AuthError>)
    ensures
        r is Ok <==> bearer_token_of(auth_header@) is Some,
        r is Ok ==> r->Ok_0@ == bearer_token_of(auth_header@)->Some_0,
        r is Err ==> r->Err_0 == AuthError::MalformedHeader,
{
    proof {
        reveal_strlit("Bearer ");
    }
    let n = auth_header.unicode_len();
    if n <= 7 {
        return Err(AuthError::MalformedHeader);
    }
    let prefix_matches = auth_header.get_char(0) == 'B' && auth_header.get_char(1) == 'e'
        && auth_header.get_char(2) == 'a' && auth_header.get_char(3) == 'r'
        && auth_header.get_char(4) == 'e' && auth_header.get_char(5) == 'r'
        && auth_header.get_char(6) == ' ';
    if prefix_matches {
        proof {
            assert(auth_header@.subrange(0, 7) =~= "Bearer "@);
        }
        let token = auth_header.substring_char(7, n);
        proof {
            assert(token@ =~= auth_header@.skip(7));
        }
        Ok(token)
    } else {
        proof {
            assert(auth_header@.subrange(0, 7) != "Bearer "@) by {
                if auth_header@.subrange(0, 7) == "Bearer "@ {
                    assert(auth_header@.subrange(0, 7)[0] == 'B');
                    assert(auth_header@.subrange(0, 7)[1] == 'e');
                    assert(auth_header@.subrange(0, 7)[2] == 'a');
                    assert(auth_header@.subrange(0, 7)[3] == 'r');
                    assert(auth_header@.subrange(0, 7)[4] == 'e');
                    assert(auth_header@.subrange(0, 7)[5] == 'r');
                    assert(auth_header@.subrange(0, 7)[6] == ' ');
                }
            }
        }
        Err(AuthError::MalformedHeader)
    }
}

} // verus!
