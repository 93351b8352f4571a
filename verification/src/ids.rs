//! Fresh identifiers and timestamps from the process environment.

use vstd::prelude::*;

verus! {

/// Relies on uuid::Uuid::new_v4 and its Display impl: a random
/// version-4 UUID rendered in the hyphenated form, which is always 36
/// characters. The value is random, so nothing more is stated.
#[verifier::external_body]
pub(crate) fn fresh_uuid() -> (r: String)
    ensures
        r@.len() == 36,
{
    uuid::Uuid::new_v4().to_string()
}

/// Relies on chrono::Utc::now and DateTime::to_rfc3339 for the current
/// time in RFC 3339 form. The value depends on the clock, so nothing is
/// stated of it.
#[verifier::external_body]
pub(crate) fn now_rfc3339() -> String {
    chrono::Utc::now().to_rfc3339()
}

} // verus!
