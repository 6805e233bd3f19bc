use vstd::prelude::*;

verus! {

/// A UTC point in time: whole seconds since 1970-01-01 00:00:00 UTC, and the
/// nanoseconds past that second.
#[derive(Debug, Clone, Copy, PartialEq, Eq, Structural)]
pub struct Timestamp {
    pub secs: i64,
    pub nanos: u32,
}

/// An upper bound on the seconds that the system clock can report here.
pub const CLOCK_SECS_BOUND: i64 = 10_000_000_000_000;

/// A reading of the system clock: not before 1970, within the bound above,
/// and with less than a second of nanoseconds.
pub open spec fn is_clock_reading(t: Timestamp) -> bool {
    &&& 0 <= t.secs < CLOCK_SECS_BOUND
    &&& t.nanos < 1_000_000_000
}

/// Calls `chrono::Utc::now()` and reads its `timestamp()` and
/// `timestamp_subsec_nanos()`. Its source builds the value from the time elapsed
/// since the Unix epoch (so the seconds are not negative and the nanoseconds
/// under a second) through `DateTime::from_timestamp(..).unwrap()`, whose range
/// ends in the year 262142 (under 10^13 seconds). Which time it returns is not
/// stated: it is the clock.
#[verifier::external_body]
pub(crate) fn utc_now() -> (t: Timestamp)
    ensures
        is_clock_reading(t),
{
    let now = chrono::Utc::now();
    Timestamp { secs: now.timestamp(), nanos: now.timestamp_subsec_nanos() }
}

} // verus!
