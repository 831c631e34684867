//! Wall-clock timestamps for the shared-state store.

use vstd::prelude::*;

verus! {

/// Relies on chrono: `Utc::now().to_rfc3339()` formats the current UTC time
/// as a full RFC 3339 date-time string, which is never empty. Nothing else
/// can be promised of a reading of the clock.
#[verifier::external_body]
pub(crate) fn now_rfc3339() -> (r: String)
    ensures
        r@.len() > 0,
{
    chrono::Utc::now().to_rfc3339()
}

} // verus!
