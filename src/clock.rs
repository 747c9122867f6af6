//! Instants in UTC, and reading the wall clock. Nothing is promised about the
//! instant that the clock returns.

use vstd::prelude::*;

verus! {

/// An instant in UTC: whole seconds since the Unix epoch and the nanoseconds past them.
#[derive(Debug, Clone, Copy, PartialEq, Eq, Structural)]
pub struct Timestamp {
    pub unix_seconds: i64,
    pub subsec_nanos: u32,
}

/// Relies on chrono's `Utc::now`, `DateTime::timestamp` and
/// `DateTime::timestamp_subsec_nanos`: the current instant from the system clock.
#[verifier::external_body]
pub(crate) fn current_time() -> Timestamp {
    let now = chrono::Utc::now();
    Timestamp { unix_seconds: now.timestamp(), subsec_nanos: now.timestamp_subsec_nanos() }
}

/// Relies on chrono's `Utc::now` and `DateTime::to_rfc3339`: the current instant as
/// RFC 3339 text, which always holds at least the date.
#[verifier::external_body]
pub(crate) fn current_time_rfc3339() -> (r: String)
    ensures
        r@.len() > 0,
{
    chrono::Utc::now().to_rfc3339()
}

} // verus!
