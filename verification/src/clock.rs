//! The server-side timestamp stamped onto every ingested record.

use vstd::prelude::*;

verus! {

/// Relies on chrono's `Utc::now` and the `Display` form of `DateTime<Utc>`:
/// the current UTC wall-clock time rendered as text. The value depends on the
/// clock, so nothing is promised of it beyond being non-empty.
#[verifier::external_body]
pub(crate) fn now_timestamp() -> (s: String)
    ensures
        s@.len() > 0,
{
    chrono::Utc::now().to_string()
}

} // verus!
