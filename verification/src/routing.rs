//! The method guard every route starts with, and the string comparison it
//! rests on.

use vstd::prelude::*;

use crate::errors::AuthError;

verus! {

/// Character-wise string equality, decided against the views.
pub fn str_eq(a: &str, b: &str) -> (r: bool)
    ensures
        r == (a@ == b@),
{
    let n = a.unicode_len();
    if n != b.unicode_len() {
        return false;
    }
    let mut i: usize = 0;
    while i < n
        invariant
            i <= n,
            n == a@.len(),
            n == b@.len(),
            forall|j: int| 0 <= j < i ==> a@[j] == b@[j],
        decreases n - i,
    {
        if a.get_char(i) != b.get_char(i) {
            return false;
        }
        i = i + 1;
    }
    proof {
        assert(a@ =~= b@);
    }
    true
}

/// Refuse a request that reached a route with the wrong HTTP method.
pub fn require_method(method: &str, expected: &str) -> (r: Result<(), AuthError>)
    ensures
        r is Ok <==> method@ == expected@,
        r is Err ==> r->Err_0 == AuthError::MethodNotAllowed,
{
    if str_eq(method, expected) {
        Ok(())
    } else {
        Err(AuthError::MethodNotAllowed)
    }
}

} // verus!
