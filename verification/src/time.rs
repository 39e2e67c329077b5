//! Instants and durations as whole microseconds since the Unix epoch.

use vstd::prelude::*;

verus! {

/// An instant, in microseconds since 1970-01-01T00:00:00Z.
pub type Timestamp = i64;

/// One hour in microseconds.
pub const MICROS_PER_HOUR: i64 = 3_600_000_000;

/// One day in microseconds.
pub const MICROS_PER_DAY: i64 = 86_400_000_000;

/// Reads the system clock through `chrono::Utc::now` and converts the instant to
/// microseconds with `DateTime::timestamp_micros`. `Utc::now` panics when the clock
/// stands before the epoch, so what comes back is never negative; which instant it
/// is depends on the clock, and nothing more is claimed.
#[verifier::external_body]
pub(crate) fn utc_now_micros() -> (t: Timestamp)
    ensures
        t >= 0,
{
    chrono::Utc::now().timestamp_micros()
}

/// Whether `t` is an instant that [`utc_now_micros`] can return: a reading of the
/// system clock, in microseconds since the epoch.
pub closed spec fn is_clock_reading(t: Timestamp) -> bool {
    call_ensures(utc_now_micros, (), t)
}

/// A reading of the clock is never before the epoch.
pub proof fn lemma_clock_reading_is_not_negative(t: Timestamp)
    requires
        is_clock_reading(t),
    ensures
        t >= 0,
{
}

/// Reads the clock; what comes back is a reading of it, as [`is_clock_reading`] says.
pub(crate) fn read_clock() -> (t: Timestamp)
    ensures
        is_clock_reading(t),
        t >= 0,
{
    let clock = utc_now_micros;
    clock()
}

/// The number of whole days in a non-negative span of microseconds, as
/// `TimeDelta::num_days` counts them (rounding toward zero).
pub open spec fn whole_days(span: int) -> int
    recommends
        span >= 0,
{
    span / (MICROS_PER_DAY as int)
}

/// A non-negative span holds `whole_days(span)` full days and less than one more.
pub proof fn lemma_whole_days(span: int)
    requires
        span >= 0,
    ensures
        whole_days(span) >= 0,
        whole_days(span) * MICROS_PER_DAY <= span,
        span < (whole_days(span) + 1) * MICROS_PER_DAY,
{
    let d: int = whole_days(span);
    assert(d * 86_400_000_000 <= span < (d + 1) * 86_400_000_000 && d >= 0) by (nonlinear_arith)
        requires
            span >= 0,
            d == span / 86_400_000_000int,
    ;
}

} // verus!
