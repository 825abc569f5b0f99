//! The wall clock, in milliseconds since the Unix epoch.
use vstd::prelude::*;

verus! {

/// What a time is taken for.
pub enum TimePeriod {
    /// The start of a span.
    Start,
    /// A log entry.
    Log,
    /// The end of a span.
    End,
    /// A meter sample.
    Metric,
}

/// The current time in milliseconds since the Unix epoch, through
/// `SystemTime::UNIX_EPOCH.elapsed()`; 0 where the clock stands before the
/// epoch. Nothing is stated of the value: it is the machine's clock.
#[verifier::external_body]
pub(crate) fn fetch_time(period: TimePeriod) -> (t: i64) {
    let _ = period;
    std::time::SystemTime::UNIX_EPOCH.elapsed().map(|d| d.as_millis() as i64).unwrap_or_default()
}

/// `t` is a reading of the clock taken for `period`: a value that a call of
/// the clock returned.
pub closed spec fn clock_reading(period: TimePeriod, t: i64) -> bool {
    call_ensures(fetch_time, (period,), t)
}

/// Read the clock for `period`.
pub(crate) fn read_clock(period: TimePeriod) -> (t: i64)
    ensures
        clock_reading(period, t),
{
    let clock = fetch_time;
    clock(period)
}

} // verus!
