//! The wall clock, and points in time as seconds and nanoseconds since the
//! Unix epoch.

use vstd::prelude::*;

verus! {

/// A point in time: whole seconds since the Unix epoch, and the
/// nanoseconds past that second.
#[derive(Clone, Copy, Debug, PartialEq, Eq, Structural, Hash)]
pub struct Timestamp {
    pub secs: i64,
    pub nanos: u32,
}

/// Reads `chrono::Utc::now()` and gives its `timestamp()` and
/// `timestamp_subsec_nanos()`. The source fails with a panic when the
/// system time lies before the epoch, and builds the time from a
/// `Duration`'s seconds and sub-second nanoseconds; so a time that comes
/// back has non-negative seconds and fewer than a billion nanoseconds.
/// Nothing else is stated of it: it is the machine's clock.
#[verifier::external_body]
pub(crate) fn now() -> (t: Timestamp)
    ensures
        t.secs >= 0,
        t.nanos < 1_000_000_000,
{
    let now = chrono::Utc::now();
    Timestamp { secs: now.timestamp(), nanos: now.timestamp_subsec_nanos() }
}

} // verus!
