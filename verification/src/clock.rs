use vstd::prelude::*;

verus! {

/// Nanoseconds in one second.
pub const NANOS_PER_SECOND: i128 = 1_000_000_000;

/// A point in time, given in nanoseconds since the Unix epoch, whose whole
/// seconds fit an `i64`, as for every value of `time::OffsetDateTime`.
pub open spec fn representable(t: int) -> bool {
    i64::MIN <= t / 1_000_000_000 <= i64::MAX
}

/// Whether a point in time (nanoseconds since the Unix epoch) lies in the range
/// of `time::OffsetDateTime`: from -9999-01-01 00:00:00 to
/// 9999-12-31 23:59:59.999999999 UTC (the `large-dates` feature is off).
pub open spec fn in_datetime_range(t: int) -> bool {
    -377_705_116_800_000_000_000 <= t <= 253_402_300_799_999_999_999
}

/// The time `secs` seconds after `t`, where both lie in the range of dates.
pub open spec fn datetime_plus_seconds(t: i128, secs: i64) -> Option<i128> {
    let u = t + secs * 1_000_000_000;
    if in_datetime_range(t as int) && in_datetime_range(u) {
        Some(u as i128)
    } else {
        None
    }
}

/// Times in the range of dates have whole seconds that fit an `i64`.
pub proof fn lemma_in_range_representable(t: int)
    requires
        in_datetime_range(t),
    ensures
        representable(t),
{
    assert(-377_705_116_800 <= t / 1_000_000_000 <= 253_402_300_799) by (nonlinear_arith)
        requires
            -377_705_116_800_000_000_000 <= t <= 253_402_300_799_999_999_999,
    ;
}

/// The current time: `time::OffsetDateTime::now_utc()` read with
/// `unix_timestamp_nanos()`. The value depends on the clock; the contract only
/// says that it lies in the range of dates, as every `OffsetDateTime` does.
#[verifier::external_body]
pub(crate) fn now_unix_nanos() -> (t: i128)
    ensures
        in_datetime_range(t as int),
{
    time::OffsetDateTime::now_utc().unix_timestamp_nanos()
}

/// Adds whole seconds to a point in time: `OffsetDateTime::from_unix_timestamp_nanos`
/// (which refuses times outside the range of dates), `checked_add` of
/// `Duration::seconds(secs)` (which gives nothing where the sum leaves that
/// range) and `unix_timestamp_nanos`. The contract claims exactly that: the sum
/// where both times lie in the range, nothing otherwise.
#[verifier::external_body]
pub(crate) fn checked_add_seconds(t: i128, secs: i64) -> (r: Option<i128>)
    ensures
        r == datetime_plus_seconds(t, secs),
{
    time::OffsetDateTime::from_unix_timestamp_nanos(t)
        .ok()
        .and_then(|d| d.checked_add(time::Duration::seconds(secs)))
        .map(|d| d.unix_timestamp_nanos())
}

/// A point in time as a JWT NumericDate: the whole seconds since the Unix epoch,
/// rounded down, as `OffsetDateTime::unix_timestamp` gives them.
pub fn jwt_numeric_date(date: i128) -> (r: i64)
    requires
        representable(date as int),
    ensures
        r == date as int / 1_000_000_000,
{
    if date >= 0 {
        (date / NANOS_PER_SECOND) as i64
    } else {
        let m: i128 = -(date + 1);
        let q: i128 = m / NANOS_PER_SECOND;
        proof {
            let d = date as int;
            assert(m == -d - 1);
            assert(q == (-d - 1) / 1_000_000_000);
            assert(d / 1_000_000_000 == -q - 1) by (nonlinear_arith)
                requires
                    d < 0,
                    q == (-d - 1) / 1_000_000_000,
            ;
        }
        (-q - 1) as i64
    }
}

} // verus!
