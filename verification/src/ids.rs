//! Subject ids: fresh ones for new users, and the well-formedness check on
//! ids carried inside tokens, both the uuid crate's work.

use vstd::prelude::*;

verus! {

/// Whether uuid::Uuid::parse_str accepts a string as a textual UUID: a
/// function of the string alone.
pub uninterp spec fn uuid_wellformed(s: Seq<char>) -> bool;

/// Relies on uuid::Uuid::parse_str: deterministic in the string.
#[verifier::external_body]
pub(crate) fn subject_id_is_wellformed(s: &str) -> (r: bool)
    ensures
        r == uuid_wellformed(s@),
{
    uuid::Uuid::parse_str(s).is_ok()
}

/// Relies on uuid::Uuid::new_v4, rendered through its Display form: a fresh
/// random id in the hyphenated textual form, which uuid::Uuid::parse_str
/// accepts back. Nothing else is assumed of the value.
#[verifier::external_body]
pub(crate) fn new_user_id() -> (r: String)
    ensures
        uuid_wellformed(r@),
{
    uuid::Uuid::new_v4().to_string()
}

} // verus!
