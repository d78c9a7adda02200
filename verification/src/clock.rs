//! Points in time, as plain numbers.

use vstd::prelude::*;

verus! {

/// An instant in UTC: whole seconds since the Unix epoch and the nanoseconds
/// past that second.
#[derive(Clone, Copy, Debug, PartialEq, Eq, Structural)]
pub struct Timestamp {
    pub secs: i64,
    pub nanos: u32,
}

/// Reads the system clock through `chrono::Utc::now`, and takes the result
/// apart with `DateTime::timestamp` and `DateTime::timestamp_subsec_nanos`.
///
/// Trusted: the clock decides the value. The one claim is that the nanosecond
/// part is below one second, since `Utc::now` builds its result from a
/// `Duration`'s `subsec_nanos` and never reports a leap second.
#[verifier::external_body]
pub(crate) fn now() -> (t: Timestamp)
    ensures
        t.nanos < 1_000_000_000,
{
    let t = chrono::Utc::now();
    Timestamp { secs: t.timestamp(), nanos: t.timestamp_subsec_nanos() }
}

} // verus!
