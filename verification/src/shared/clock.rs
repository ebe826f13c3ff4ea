//! The wall clock.
use vstd::prelude::*;

verus! {

/// Whether `t` nanoseconds since the Unix epoch is an instant that
/// `time::OffsetDateTime` can hold. Its dates run over the years -9,999 to 9,999
/// (-999,999 to 999,999 with the crate's `large-dates` feature), so every such
/// instant lies strictly within 4 * 10^22 nanoseconds of the epoch either way.
pub open spec fn clock_reading(t: int) -> bool {
    -40_000_000_000_000_000_000_000 < t < 40_000_000_000_000_000_000_000
}

/// Calls `time::OffsetDateTime::now_utc()` and gives its Unix timestamp in
/// nanoseconds. The value is the time of the call, of which nothing is claimed
/// but that an `OffsetDateTime` holds it (see `clock_reading`).
#[verifier::external_body]
pub fn now_unix_nanos() -> (r: i128)
    ensures
        clock_reading(r as int),
{
    time::OffsetDateTime::now_utc().unix_timestamp_nanos()
}

/// Whether a nanosecond timestamp lies in whole seconds that an `i64` holds.
pub open spec fn seconds_fit(nanos: i128) -> bool {
    i64::MIN as int * 1_000_000_000 <= nanos < (i64::MAX as int + 1) * 1_000_000_000
}

/// The whole seconds since the Unix epoch of a nanosecond timestamp, rounded down
/// (as `OffsetDateTime::unix_timestamp` gives them).
pub fn unix_seconds(nanos: i128) -> (r: i64)
    requires
        seconds_fit(nanos),
    ensures
        r == nanos / 1_000_000_000,
{
    let q = nanos.checked_div_euclid(1_000_000_000i128);
    match q {
        Some(s) => {
            assert(i64::MIN <= nanos / 1_000_000_000 <= i64::MAX) by (nonlinear_arith)
                requires
                    i64::MIN as int * 1_000_000_000 <= nanos < (i64::MAX as int + 1) * 1_000_000_000,
            ;
            s as i64
        },
        None => 0,
    }
}

} // verus!
