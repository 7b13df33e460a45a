//! The two values the core needs from the outside world: a fresh unique
//! identifier and the current time. Both depend on more than their
//! arguments, so the callers state only what holds of every outcome.

use vstd::prelude::*;

verus! {

/// Relies on uuid::Uuid::new_v4 for a freshly generated random identifier,
/// and on uuid's Display implementation, whose hyphenated form is always
/// 36 characters of ASCII hex digits and hyphens.
#[verifier::external_body]
pub(crate) fn fresh_uuid() -> (id: String)
    ensures
        id@.len() == 36,
{
    uuid::Uuid::new_v4().to_string()
}

/// Relies on chrono::Utc::now for the current time; nothing can be promised
/// of the value it returns.
#[verifier::external_body]
pub(crate) fn now_millis() -> (t: i64)
{
    chrono::Utc::now().timestamp_millis()
}

} // verus!
