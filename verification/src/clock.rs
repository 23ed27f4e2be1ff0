//! Times and validities.
use std::time::SystemTime;

use time::OffsetDateTime;
use vstd::prelude::*;

use crate::model::CertError;
use crate::model::TimespanUnit;

verus! {

/// Nanoseconds in a second.
pub const NANOS: i128 = 1_000_000_000;

/// Nanoseconds in a millisecond.
pub const NANOS_PER_MILLI: i128 = 1_000_000;

/// Seconds in an hour.
pub const HOUR_SECONDS: u64 = 3600;

/// The first second that a date and time can stand for: the start of the year -9999.
pub const FIRST_SECOND: i128 = -377705116800;

/// The last second that a date and time can stand for: the end of the year 9999.
pub const LAST_SECOND: i128 = 253402300799;

/// The first second of the year 0, the first that a certificate can hold.
pub const FIRST_CERTIFICATE_SECOND: i128 = -62167219200;

/// The hours in a unit of time.
pub open spec fn unit_hours(unit: TimespanUnit) -> int {
    match unit {
        TimespanUnit::Year => 365int * 24,
        TimespanUnit::Month => 30int * 24,
        TimespanUnit::Day => 24,
        TimespanUnit::Hour => 1,
    }
}

/// The integer that 64 bits of two's complement stand for, out of the low bits of `n`.
pub open spec fn signed_64(n: int) -> int {
    let low = n % 0x1_0000_0000_0000_0000;
    if low < 0x8000_0000_0000_0000 {
        low
    } else {
        low - 0x1_0000_0000_0000_0000
    }
}

/// A time of nanoseconds since 1970 is one that a date and time can stand for.
pub open spec fn is_date_time(nanos: int) -> bool {
    FIRST_SECOND * NANOS <= nanos < (LAST_SECOND + 1) * NANOS
}

/// A time of nanoseconds since 1970 is one that a certificate can hold.
pub open spec fn is_certificate_time(nanos: int) -> bool {
    FIRST_CERTIFICATE_SECOND * NANOS <= nanos < (LAST_SECOND + 1) * NANOS
}

/// The seconds that are counted for a validity: those of an hour at least.
pub open spec fn validity_seconds(duration: u64, unit: TimespanUnit) -> int {
    let hours = duration * unit_hours(unit);
    (if hours >= 1 { hours } else { 1 }) * 3600
}

/// The end of a validity that starts at `now`, in nanoseconds since 1970. Seconds of more than 63
/// bits count backwards.
pub open spec fn validity_end(now: int, duration: u64, unit: TimespanUnit) -> int {
    now + signed_64(validity_seconds(duration, unit)) * 1_000_000_000
}

/// The validity can be counted, and its end is a date and time.
pub open spec fn validity_fits(now: int, duration: u64, unit: TimespanUnit) -> bool {
    &&& validity_seconds(duration, unit) <= u64::MAX
    &&& is_date_time(validity_end(now, duration, unit))
}

/// The whole seconds since 1970, rounded towards the past.
pub open spec fn whole_seconds(nanos: int) -> int {
    nanos / 1_000_000_000
}

/// The quotient of `n` and a positive `d`, rounded towards zero.
pub open spec fn towards_zero(n: int, d: int) -> int {
    if n >= 0 {
        n / d
    } else {
        -((-n) / d)
    }
}

/// The hours in a unit of time.
pub fn hours_per_unit(unit: TimespanUnit) -> (h: u64)
    ensures
        h == unit_hours(unit),
        1 <= h <= 8760,
{
    match unit {
        TimespanUnit::Year => 365 * 24,
        TimespanUnit::Month => 30 * 24,
        TimespanUnit::Day => 24,
        TimespanUnit::Hour => 1,
    }
}

/// The two's complement reading of 64 bits.
fn as_signed(n: u64) -> (r: i64)
    ensures
        r == signed_64(n as int),
{
    assert(n < 0x8000_0000_0000_0000 ==> n as i64 == n) by (bit_vector);
    assert(n >= 0x8000_0000_0000_0000 ==> n as i64 == n - 0x1_0000_0000_0000_0000) by (bit_vector);
    n as i64
}

/// The two's complement reading of the low 64 bits.
fn low_signed(n: u128) -> (r: i64)
    ensures
        r == signed_64(n as int),
{
    let low: u64 = (n % 0x1_0000_0000_0000_0000) as u64;
    as_signed(low)
}

/// The hours of a timespan.
fn span_hours(duration: u64, unit: TimespanUnit) -> (hours: u128)
    ensures
        hours == duration * unit_hours(unit),
        hours <= u64::MAX * 8760,
{
    let per_unit: u64 = hours_per_unit(unit);
    assert(0 <= duration * per_unit <= u64::MAX * 8760) by (nonlinear_arith)
        requires
            0 <= duration <= u64::MAX,
            1 <= per_unit <= 8760,
    ;
    duration as u128 * per_unit as u128
}

/// `OffsetDateTime::now_utc` gives this time at some moment, in nanoseconds since 1970. Two
/// readings may differ, so that it holds of many times.
pub uninterp spec fn utc_clock_shows(nanos: int) -> bool;

/// Reads the clock through `OffsetDateTime::now_utc`, in nanoseconds since 1970. Which time the
/// clock shows is left open, except that it is a date and time.
#[verifier::external_body]
fn utc_now() -> (nanos: i128)
    ensures
        utc_clock_shows(nanos as int),
        is_date_time(nanos as int),
{
    OffsetDateTime::now_utc().unix_timestamp_nanos()
}

/// The present date and time, in nanoseconds since 1970.
pub fn now_utc() -> (nanos: i128)
    ensures
        utc_clock_shows(nanos as int),
        is_date_time(nanos as int),
{
    utc_now()
}

/// Whether a validity can be counted from `now`, and its end is a date and time.
pub fn check_validity(now: i128, duration: u64, unit: TimespanUnit) -> (fits: bool)
    requires
        is_date_time(now as int),
    ensures
        fits == validity_fits(now as int, duration, unit),
{
    let hours: u128 = span_hours(duration, unit);
    let hours: u128 = if hours >= 1 { hours } else { 1 };
    if hours > u64::MAX as u128 / 3600 {
        return false;
    }
    let offset: i64 = as_signed(hours as u64 * HOUR_SECONDS);
    let end: i128 = now + offset as i128 * NANOS;
    FIRST_SECOND * NANOS <= end && end < (LAST_SECOND + 1) * NANOS
}

/// The end of a validity that starts at `now`, in nanoseconds since 1970.
pub fn timestamp_at(now: i128, duration: u64, unit: TimespanUnit) -> (end: i128)
    requires
        is_date_time(now as int),
        validity_fits(now as int, duration, unit),
    ensures
        end == validity_end(now as int, duration, unit),
{
    let hours: u128 = span_hours(duration, unit);
    let hours: u128 = if hours >= 1 { hours } else { 1 };
    let offset: i64 = as_signed(hours as u64 * HOUR_SECONDS);
    now + offset as i128 * NANOS
}

/// What `get_timestamp` gives back.
pub open spec fn timestamp_result(
    duration: u64,
    unit: TimespanUnit,
    r: Result<i128, CertError>,
) -> bool {
    match r {
        Ok(end) => exists|now: int| #[trigger]
            utc_clock_shows(now) && is_date_time(now) && validity_fits(now, duration, unit) && end
                == validity_end(now, duration, unit),
        Err(e) => e is TimeOutOfRange && exists|now: int| #[trigger]
            utc_clock_shows(now) && is_date_time(now) && !validity_fits(now, duration, unit),
    }
}

/// The end of a validity that starts at what the clock shows, in nanoseconds since 1970.
pub fn get_timestamp(duration: u64, unit: TimespanUnit) -> (r: Result<i128, CertError>)
    ensures
        timestamp_result(duration, unit, r),
{
    let now: i128 = now_utc();
    if check_validity(now, duration, unit) {
        Ok(timestamp_at(now, duration, unit))
    } else {
        Err(CertError::TimeOutOfRange)
    }
}

/// What the system clock shows, in nanoseconds from 1970.
pub enum ClockReading {
    /// So long after 1970.
    AfterEpoch(u128),
    /// So long before 1970.
    BeforeEpoch(u128),
}

/// The nanoseconds from 1970, negative before it.
pub open spec fn reading_nanos(reading: ClockReading) -> int {
    match reading {
        ClockReading::AfterEpoch(nanos) => nanos as int,
        ClockReading::BeforeEpoch(nanos) => -nanos,
    }
}

/// A distance of 64 bits of seconds, which is what a clock can show.
pub open spec fn is_clock_distance(nanos: int) -> bool {
    -0x1_0000_0000_0000_0000 * 1_000_000_000 < nanos < 0x1_0000_0000_0000_0000 * 1_000_000_000
}

/// The seconds of a timespan.
pub open spec fn span_seconds(duration: u64, unit: TimespanUnit) -> int {
    3600 * (duration * unit_hours(unit))
}

/// The time that lies a timespan after `now`, in nanoseconds since 1970.
pub open spec fn span_end(now: int, duration: u64, unit: TimespanUnit) -> int {
    now + span_seconds(duration, unit) * 1_000_000_000
}

/// The timespan can be counted, and its end is a time of the system clock, whose seconds have 64
/// bits with a sign.
pub open spec fn span_fits(now: int, duration: u64, unit: TimespanUnit) -> bool {
    &&& span_seconds(duration, unit) <= u64::MAX
    &&& whole_seconds(span_end(now, duration, unit)) <= i64::MAX
}

/// The milliseconds since 1970 at the end of a timespan, in 64 bits.
pub open spec fn span_end_millis(now: int, duration: u64, unit: TimespanUnit) -> int {
    signed_64(span_end(now, duration, unit) / 1_000_000)
}

/// The seconds since 1970 at the end of a timespan, as they go into a certificate.
pub open spec fn span_end_seconds(now: int, duration: u64, unit: TimespanUnit) -> int {
    towards_zero(span_end_millis(now, duration, unit), 1000)
}

/// The timespan can be counted from `now`, and does not end before 1970.
pub open spec fn is_span_counted(now: int, duration: u64, unit: TimespanUnit) -> bool {
    span_fits(now, duration, unit) && span_end(now, duration, unit) >= 0
}

/// `SystemTime::elapsed` since 1970 gives this time at some moment, in nanoseconds, negative before
/// 1970. Two readings may differ, so that it holds of many times.
pub uninterp spec fn system_clock_shows(nanos: int) -> bool;

/// Reads the clock through `SystemTime::elapsed` since 1970. Which time the clock shows is left
/// open, except that the seconds of a `Duration` have 64 bits.
#[verifier::external_body]
pub(crate) fn system_now() -> (reading: ClockReading)
    ensures
        system_clock_shows(reading_nanos(reading)),
        is_clock_distance(reading_nanos(reading)),
{
    match SystemTime::UNIX_EPOCH.elapsed() {
        Ok(after) => ClockReading::AfterEpoch(after.as_nanos()),
        Err(e) => ClockReading::BeforeEpoch(e.duration().as_nanos()),
    }
}

/// Whether a timespan can be counted from the reading, and its end is a time of the system clock.
pub fn check_span(reading: &ClockReading, duration: u64, unit: TimespanUnit) -> (fits: bool)
    requires
        is_clock_distance(reading_nanos(*reading)),
    ensures
        fits == span_fits(reading_nanos(*reading), duration, unit),
{
    let hours: u128 = span_hours(duration, unit);
    if hours > u64::MAX as u128 / 3600 {
        return false;
    }
    let span: i128 = hours as i128 * 3600 * NANOS;
    let end: i128 = match reading {
        ClockReading::AfterEpoch(nanos) => *nanos as i128 + span,
        ClockReading::BeforeEpoch(nanos) => span - *nanos as i128,
    };
    end < (i64::MAX as i128 + 1) * NANOS
}

/// What `asn1_timestamp_at` gives back for a clock that shows `now`.
pub open spec fn asn1_timestamp_result(
    now: int,
    duration: u64,
    unit: TimespanUnit,
    r: Result<(i64, i64), CertError>,
) -> bool {
    match r {
        Ok((millis, seconds)) => {
            &&& is_span_counted(now, duration, unit)
            &&& millis == span_end_millis(now, duration, unit)
            &&& seconds == span_end_seconds(now, duration, unit)
        },
        Err(CertError::TimeOutOfRange) => !span_fits(now, duration, unit),
        Err(e) => {
            &&& e is ClockBeforeEpoch
            &&& span_fits(now, duration, unit)
            &&& span_end(now, duration, unit) < 0
        },
    }
}

/// The time that lies a timespan after the reading: in milliseconds since 1970, and in the
/// seconds that go into a certificate. A timespan that cannot be counted and a time before 1970
/// are errors.
pub fn asn1_timestamp_at(reading: &ClockReading, duration: u64, unit: TimespanUnit) -> (r: Result<
    (i64, i64),
    CertError,
>)
    requires
        is_clock_distance(reading_nanos(*reading)),
    ensures
        asn1_timestamp_result(reading_nanos(*reading), duration, unit, r),
{
    if !check_span(reading, duration, unit) {
        return Err(CertError::TimeOutOfRange);
    }
    let hours: u128 = span_hours(duration, unit);
    let span: i128 = hours as i128 * 3600 * NANOS;
    let end: i128 = match reading {
        ClockReading::AfterEpoch(nanos) => *nanos as i128 + span,
        ClockReading::BeforeEpoch(nanos) => span - *nanos as i128,
    };
    if end < 0 {
        return Err(CertError::ClockBeforeEpoch);
    }
    let millis: i64 = low_signed(end as u128 / 1_000_000);
    Ok((millis, millis / 1000))
}

/// The time that lies a timespan after what the clock shows: in milliseconds since 1970, and in the
/// seconds that go into a certificate.
pub fn get_asn1_timestamp(duration: u64, unit: TimespanUnit) -> (r: Result<(i64, i64), CertError>)
    ensures
        exists|now: int| #[trigger]
            system_clock_shows(now) && asn1_timestamp_result(now, duration, unit, r),
{
    let reading = system_now();
    asn1_timestamp_at(&reading, duration, unit)
}

/// The milliseconds of a time that lies `days` and `secs` after 1970.
pub open spec fn difference_millis(days: int, secs: int) -> int {
    (days * 24 * 3600 + secs) * 1000
}

/// The milliseconds since 1970 of a time whose difference to 1970 is given in days and seconds.
pub fn asn1_time_to_unix(days: i32, secs: i32) -> (millis: i64)
    ensures
        millis == difference_millis(days as int, secs as int),
{
    (days as i64 * 24 * 3600 + secs as i64) * 1000
}

}
