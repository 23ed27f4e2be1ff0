//! How long things last, in hours, days, seconds and milliseconds.
use vstd::prelude::*;

use crate::acme;
use crate::builder;
use crate::builder::BuilderView;
use crate::builder::TLSCertificateBuilder;
use crate::clock;
use crate::model;
use crate::model::CertError;
use crate::model::TimespanUnit;

verus! {

/// So many seconds are so many hours, days of 24 hours, months of 30 days or years of 365 days.
pub open spec fn are_seconds_of(seconds: int, duration: int, unit: TimespanUnit) -> bool {
    &&& unit == TimespanUnit::Hour ==> seconds == duration * 3_600
    &&& unit == TimespanUnit::Day ==> seconds == duration * 86_400
    &&& unit == TimespanUnit::Month ==> seconds == duration * 2_592_000
    &&& unit == TimespanUnit::Year ==> seconds == duration * 31_536_000
}

/// The seconds are 3600 for each hour that is counted.
proof fn lemma_hours(seconds: int, duration: int, unit: TimespanUnit)
    requires
        are_seconds_of(seconds, duration, unit),
    ensures
        seconds == (duration * clock::unit_hours(unit)) * 3600,
        seconds == 3600 * (duration * clock::unit_hours(unit)),
{
    let per_unit = clock::unit_hours(unit);
    match unit {
        TimespanUnit::Hour => {
            assert(duration * per_unit == duration * 1) by (nonlinear_arith)
                requires
                    per_unit == 1,
            ;
        },
        TimespanUnit::Day => {
            assert(duration * per_unit == duration * 24) by (nonlinear_arith)
                requires
                    per_unit == 24,
            ;
        },
        TimespanUnit::Month => {
            assert(duration * per_unit == duration * 720) by (nonlinear_arith)
                requires
                    per_unit == 720,
            ;
        },
        TimespanUnit::Year => {
            assert(duration * per_unit == duration * 8760) by (nonlinear_arith)
                requires
                    per_unit == 8760,
            ;
        },
    }
}

/// A validity of one or more hours, days, months or years ends exactly so long after its start:
/// hours have 3600 seconds, days 24 hours, months 30 days and years 365 days. A validity of nothing
/// lasts an hour.
pub proof fn lemma_validity_ends_exactly(
    now: int,
    duration: u64,
    unit: TimespanUnit,
    seconds: int,
)
    requires
        are_seconds_of(seconds, duration as int, unit),
        seconds <= i64::MAX,
    ensures
        duration >= 1 ==> clock::validity_end(now, duration, unit) == now + seconds * 1_000_000_000,
        duration == 0 ==> clock::validity_end(now, duration, unit) == now + 3_600_000_000_000,
{
    lemma_hours(seconds, duration as int, unit);
}

/// Seconds of a validity that have 64 bits are counted back from the end of what 64 bits can hold.
pub proof fn lemma_long_validity_counts_backwards(
    now: int,
    duration: u64,
    unit: TimespanUnit,
    seconds: int,
)
    requires
        are_seconds_of(seconds, duration as int, unit),
        i64::MAX < seconds <= u64::MAX,
    ensures
        clock::validity_end(now, duration, unit) == now + (seconds - 18_446_744_073_709_551_616)
            * 1_000_000_000,
{
    lemma_hours(seconds, duration as int, unit);
}

/// A validity can be counted if and only if its seconds have 64 bits and it ends within the years
/// from -9999 to 9999.
pub proof fn lemma_validity_is_countable(now: int, duration: u64, unit: TimespanUnit, seconds: int)
    requires
        are_seconds_of(seconds, duration as int, unit),
    ensures
        duration >= 1 && seconds <= i64::MAX ==> (clock::validity_fits(now, duration, unit) <==>
            -377_705_116_800_000_000_000 <= now + seconds * 1_000_000_000
            < 253_402_300_800_000_000_000),
        duration == 0 ==> (clock::validity_fits(now, duration, unit) <==>
            -377_705_116_800_000_000_000 <= now + 3_600_000_000_000 < 253_402_300_800_000_000_000),
        seconds > u64::MAX ==> !clock::validity_fits(now, duration, unit),
{
    lemma_hours(seconds, duration as int, unit);
}

/// A validity is the same in all units: a day is 24 hours, a month 30 days and a year 365 days.
pub proof fn lemma_units_of_a_validity_agree(now: int, duration: u64, hours: u64, days: u64)
    ensures
        hours == 24 * duration ==> clock::validity_end(now, duration, TimespanUnit::Day)
            == clock::validity_end(now, hours, TimespanUnit::Hour),
        days == 30 * duration ==> clock::validity_end(now, duration, TimespanUnit::Month)
            == clock::validity_end(now, days, TimespanUnit::Day),
        days == 365 * duration ==> clock::validity_end(now, duration, TimespanUnit::Year)
            == clock::validity_end(now, days, TimespanUnit::Day),
{
    lemma_hours(duration * 86_400, duration as int, TimespanUnit::Day);
    lemma_hours(duration * 2_592_000, duration as int, TimespanUnit::Month);
    lemma_hours(duration * 31_536_000, duration as int, TimespanUnit::Year);
    lemma_hours(hours * 3_600, hours as int, TimespanUnit::Hour);
    lemma_hours(days * 86_400, days as int, TimespanUnit::Day);
}

/// A validity that follows on another one in the same unit ends with the validity of both.
pub proof fn lemma_validities_add_up(
    now: int,
    first: u64,
    second: u64,
    both: u64,
    unit: TimespanUnit,
    seconds: int,
)
    requires
        first >= 1,
        second >= 1,
        both == first + second,
        are_seconds_of(seconds, both as int, unit),
        seconds <= i64::MAX,
    ensures
        clock::validity_end(clock::validity_end(now, first, unit), second, unit)
            == clock::validity_end(now, both, unit),
{
    let hour = match unit {
        TimespanUnit::Hour => 3_600int,
        TimespanUnit::Day => 86_400,
        TimespanUnit::Month => 2_592_000,
        TimespanUnit::Year => 31_536_000,
    };
    assert(seconds == first * hour + second * hour && first * hour >= 0 && second * hour >= 0)
        by (nonlinear_arith)
        requires
            seconds == both * hour,
            both == first + second,
            hour >= 0,
    ;
    lemma_validity_ends_exactly(now, first, unit, first * hour);
    let middle = clock::validity_end(now, first, unit);
    lemma_validity_ends_exactly(middle, second, unit, second * hour);
    lemma_validity_ends_exactly(now, both, unit, seconds);
}

/// What `set_valid_until` changes is the end of the validity, which lies exactly the seconds of the
/// duration after the present, those of an hour at least.
pub proof fn lemma_validity_is_set(
    v: BuilderView,
    now: int,
    duration: u64,
    unit: TimespanUnit,
    seconds: int,
)
    requires
        clock::is_date_time(now),
        clock::validity_fits(now, duration, unit),
        are_seconds_of(seconds, duration as int, unit),
        seconds <= i64::MAX,
    ensures
        builder::valid_for(v, now, duration, unit).not_after matches Some(end) && end == now + (
        if duration >= 1 {
            seconds
        } else {
            3_600
        }) * 1_000_000_000,
        builder::valid_for(v, now, duration, unit) == (BuilderView {
            not_after: builder::valid_for(v, now, duration, unit).not_after,
            ..v
        }),
{
    lemma_hours(seconds, duration as int, unit);
}

/// The end that `set_valid_until` sets and `get_timestamp` gives lies exactly the seconds of the
/// duration, those of an hour at least, after a time that the clock showed, and nothing else is
/// set. It is out of range only if it would not lie within the years from -9999 to 9999.
pub proof fn lemma_validity_from_the_clock(
    v: BuilderView,
    duration: u64,
    unit: TimespanUnit,
    seconds: int,
    set: Result<TLSCertificateBuilder, CertError>,
    end: Result<i128, CertError>,
)
    requires
        builder::valid_until_result(v, duration, unit, set),
        clock::timestamp_result(duration, unit, end),
        are_seconds_of(seconds, duration as int, unit),
        seconds <= i64::MAX,
    ensures
        ({
            let counted = if duration >= 1 {
                seconds
            } else {
                3_600
            };
            &&& set matches Ok(b) ==> b@ == (BuilderView { not_after: b@.not_after, ..v })
                && exists|now: int| #[trigger]
                clock::utc_clock_shows(now) && (b@.not_after matches Some(t) && t == now + counted
                    * 1_000_000_000)
            &&& end matches Ok(t) ==> exists|now: int| #[trigger]
                clock::utc_clock_shows(now) && t == now + counted * 1_000_000_000
            &&& set matches Err(e) ==> e is TimeOutOfRange && exists|now: int| #[trigger]
                clock::utc_clock_shows(now) && !(-377_705_116_800_000_000_000 <= now + counted
                    * 1_000_000_000 < 253_402_300_800_000_000_000)
            &&& end matches Err(e) ==> e is TimeOutOfRange && exists|now: int| #[trigger]
                clock::utc_clock_shows(now) && !(-377_705_116_800_000_000_000 <= now + counted
                    * 1_000_000_000 < 253_402_300_800_000_000_000)
        }),
{
    assert forall|now: int| #[trigger] clock::utc_clock_shows(now) implies {
        let counted = if duration >= 1 {
            seconds
        } else {
            3_600
        };
        &&& clock::validity_end(now, duration, unit) == now + counted * 1_000_000_000
        &&& clock::validity_fits(now, duration, unit) <==> -377_705_116_800_000_000_000 <= now
            + counted * 1_000_000_000 < 253_402_300_800_000_000_000
    } by {
        lemma_validity_ends_exactly(now, duration, unit, seconds);
        lemma_validity_is_countable(now, duration, unit, seconds);
    }
}

/// A timespan has no shortest length, and ends exactly so long after the present: hours have 3600
/// seconds, days 24 hours, months 30 days and years 365 days.
pub proof fn lemma_span_ends_exactly(now: int, duration: u64, unit: TimespanUnit, seconds: int)
    requires
        are_seconds_of(seconds, duration as int, unit),
    ensures
        clock::span_end(now, duration, unit) == now + seconds * 1_000_000_000,
{
    lemma_hours(seconds, duration as int, unit);
}

/// What `get_asn1_timestamp` gives back at a time of the clock. A timespan whose seconds do not
/// have 64 bits, or that ends later than 63 bits of seconds can say, is out of range. One that
/// ends before 1970 is an error, too. Otherwise the result is the milliseconds since 1970 at its
/// end, as far as 63 bits hold them, and the whole seconds in these.
pub proof fn lemma_timestamp_is_exact(
    now: int,
    duration: u64,
    unit: TimespanUnit,
    seconds: int,
    r: Result<(i64, i64), CertError>,
)
    requires
        are_seconds_of(seconds, duration as int, unit),
        clock::asn1_timestamp_result(now, duration, unit, r),
    ensures
        ({
            let end = now + seconds * 1_000_000_000;
            let out_of_range = seconds > u64::MAX || end >= 9_223_372_036_854_775_808_000_000_000;
            &&& out_of_range <==> (r is Err && r->Err_0 is TimeOutOfRange)
            &&& !out_of_range && end < 0 <==> (r is Err && r->Err_0 is ClockBeforeEpoch)
            &&& !out_of_range && end >= 0 <==> r is Ok
            &&& r matches Ok((millis, _)) ==> (end / 1_000_000 - millis)
                % 18_446_744_073_709_551_616 == 0
            &&& r matches Ok((millis, _)) ==> end / 1_000_000 <= i64::MAX ==> millis == end
                / 1_000_000
            &&& r matches Ok((millis, whole)) ==> millis >= 0 ==> 0 <= millis - whole * 1000 < 1000
            &&& r matches Ok((millis, whole)) ==> millis < 0 ==> -1000 < millis - whole * 1000 <= 0
        }),
{
    lemma_hours(seconds, duration as int, unit);
    assert((now + seconds * 1_000_000_000) / 1_000_000_000 <= i64::MAX <==> now + seconds
        * 1_000_000_000 < 9_223_372_036_854_775_808_000_000_000);
}

/// What goes into the two ends of the validity of a certificate for a signing request, and when
/// there is an error instead, over the readings of the clock in nanoseconds.
pub proof fn lemma_issue_counts_days(
    public_key: Seq<u8>,
    ca_cert: Seq<u8>,
    ca_key: Seq<u8>,
    serial: Seq<u8>,
    start: int,
    end: int,
    validity_days: u64,
    dns_names: Seq<Seq<char>>,
    r: Result<Vec<u8>, CertError>,
)
    requires
        acme::issue_at_result(
            public_key,
            ca_cert,
            ca_key,
            serial,
            start,
            end,
            validity_days,
            dns_names,
            r,
        ),
        0 <= start < 9_223_372_036_854_775_808_000_000,
    ensures
        ({
            let late = end + validity_days * 86_400_000_000_000;
            let out_of_range = validity_days * 86_400 > u64::MAX || late
                >= 9_223_372_036_854_775_808_000_000_000;
            &&& out_of_range <==> (r is Err && r->Err_0 is TimeOutOfRange)
            &&& !out_of_range && late < 0 <==> (r is Err && r->Err_0 is ClockBeforeEpoch)
            &&& r matches Err(e) ==> e is TimeOutOfRange || e is ClockBeforeEpoch || e is OpenSsl
            &&& late < 9_223_372_036_854_775_808_000_000 ==> (r matches Ok(der) ==> exists|
                fields: crate::openssl_api::X509Fields,
            |
                {
                    &&& #[trigger] crate::openssl_api::x509_built(fields, der@)
                    &&& fields.not_before == Some(start / 1_000_000_000)
                    &&& fields.not_after == Some(end / 1_000_000_000 + validity_days * 86_400)
                })
        }),
{
    lemma_hours(validity_days * 86_400, validity_days as int, TimespanUnit::Day);
    lemma_hours(0, 0, TimespanUnit::Hour);
    let late = clock::span_end(end, validity_days, TimespanUnit::Day);
    assert(late == end + validity_days * 86_400_000_000_000);
    assert(clock::span_end(start, 0, TimespanUnit::Hour) == start);
    assert(late / 1_000_000_000 <= i64::MAX <==> late
        < 9_223_372_036_854_775_808_000_000_000);
    if let Ok(der) = r {
        if late < 9_223_372_036_854_775_808_000_000 {
            assert(late / 1_000_000 / 1000 == late / 1_000_000_000);
            assert(start / 1_000_000 / 1000 == start / 1_000_000_000);
            let fields = acme::issued_fields(
                public_key,
                ca_cert,
                ca_key,
                serial,
                clock::span_end_seconds(start, 0, TimespanUnit::Hour),
                clock::span_end_seconds(end, validity_days, TimespanUnit::Day),
                dns_names,
            );
            assert(crate::openssl_api::x509_built(fields, der@));
        }
    }
}

/// No certificate is issued at a time before 1970, or later than 63 bits of seconds can say.
pub proof fn lemma_issue_needs_a_time(
    public_key: Seq<u8>,
    ca_cert: Seq<u8>,
    ca_key: Seq<u8>,
    serial: Seq<u8>,
    start: int,
    end: int,
    validity_days: u64,
    dns_names: Seq<Seq<char>>,
    r: Result<Vec<u8>, CertError>,
)
    requires
        acme::issue_at_result(
            public_key,
            ca_cert,
            ca_key,
            serial,
            start,
            end,
            validity_days,
            dns_names,
            r,
        ),
    ensures
        start < 0 ==> r is Err && r->Err_0 is ClockBeforeEpoch,
        start >= 9_223_372_036_854_775_808_000_000_000 ==> r is Err && r->Err_0 is TimeOutOfRange,
{
    lemma_hours(0, 0, TimespanUnit::Hour);
}

/// A certificate that was valid for so many whole days is renewed for exactly as many, counted in
/// seconds from the time of the renewal, and for fourteen if it was valid for less. There is no
/// longest renewal.
pub proof fn lemma_renewal_lasts_as_long(
    v: BuilderView,
    cert: model::CertificateView,
    now: int,
    days: int,
    rest: int,
)
    requires
        clock::is_date_time(now),
        builder::renewal_fits(cert, now),
        cert.valid_until - cert.created_on == days * 86_400_000 + rest,
        cert.valid_until - cert.created_on <= i64::MAX,
        0 <= rest < 86_400_000,
    ensures
        days >= 14 ==> (builder::renewed(v, cert, now).not_after matches Some(end) && end == now
            + days * 86_400 * 1_000_000_000),
        days < 14 ==> (builder::renewed(v, cert, now).not_after matches Some(end) && end == now
            + 1_209_600 * 1_000_000_000),
{
    let counted = builder::renewal_days(cert.created_on as int, cert.valid_until as int);
    assert(days >= 14 ==> counted == days);
    assert(days < 14 ==> counted == 14);
    assert(counted as u64 == counted);
}

/// A certificate can be renewed at a time if and only if the renewed one ends within the year 9999.
pub proof fn lemma_renewal_is_countable(
    cert: model::CertificateView,
    now: int,
    days: int,
    rest: int,
)
    requires
        clock::is_date_time(now),
        cert.valid_until - cert.created_on == days * 86_400_000 + rest,
        cert.valid_until - cert.created_on <= i64::MAX,
        0 <= rest < 86_400_000,
    ensures
        days >= 14 ==> (builder::renewal_fits(cert, now) <==> now + days * 86_400_000_000_000
            < 253_402_300_800_000_000_000),
        days < 14 ==> (builder::renewal_fits(cert, now) <==> now + 1_209_600_000_000_000
            < 253_402_300_800_000_000_000),
{
    let counted = builder::renewal_days(cert.created_on as int, cert.valid_until as int);
    assert(days >= 14 ==> counted == days);
    assert(days < 14 ==> counted == 14);
    assert(counted as u64 == counted);
}

/// A renewal copies the name, the password, the renew method and the user of the earlier
/// certificate, whatever was in the builder, and leaves its key, serial number, start, alternative
/// names and authority alone.
pub proof fn lemma_renewal_copies(v: BuilderView, cert: model::CertificateView, now: int)
    ensures
        builder::renewed(v, cert, now).name == Some(cert.name),
        builder::renewed(v, cert, now).password == cert.password,
        builder::renewed(v, cert, now).renew_method == cert.renew_method,
        builder::renewed(v, cert, now).user_id == Some(cert.user_id),
        builder::renewed(v, cert, now).key == v.key,
        builder::renewed(v, cert, now).serial == v.serial,
        builder::renewed(v, cert, now).not_before == v.not_before,
        builder::renewed(v, cert, now).sans == v.sans,
        builder::renewed(v, cert, now).ca == v.ca,
{
}

/// What `try_from` makes of a certificate that was valid for so many whole days: a new builder with
/// its name, password, renew method and user, for as many days, fourteen at least, from a time that
/// the clock showed. It has no alternative names and no authority.
pub proof fn lemma_renewal_from_the_clock(
    cert: model::CertificateView,
    days: int,
    rest: int,
    r: Result<TLSCertificateBuilder, CertError>,
)
    requires
        builder::renewal_result(cert, r),
        cert.valid_until - cert.created_on == days * 86_400_000 + rest,
        cert.valid_until - cert.created_on <= i64::MAX,
        0 <= rest < 86_400_000,
        r is Ok,
    ensures
        ({
            let v = (r->Ok_0)@;
            &&& v.name == Some(cert.name)
            &&& v.password == cert.password
            &&& v.renew_method == cert.renew_method
            &&& v.user_id == Some(cert.user_id)
            &&& v.sans.len() == 0
            &&& v.ca is None
            &&& clock::utc_clock_shows(v.not_before as int)
            &&& exists|now: int| #[trigger]
                clock::utc_clock_shows(now) && (v.not_after matches Some(end) && end == now + (
                if days >= 14 {
                    days
                } else {
                    14
                }) * 86_400 * 1_000_000_000)
        }),
{
    let v = (r->Ok_0)@;
    let fresh = builder::fresh_builder(v.key, v.not_before, v.serial);
    let now = choose|now: int| #[trigger]
        clock::utc_clock_shows(now) && clock::is_date_time(now) && builder::renewal_fits(cert, now)
            && v == builder::renewed(fresh, cert, now);
    assert(clock::utc_clock_shows(now));
    lemma_renewal_lasts_as_long(fresh, cert, now, days, rest);
}

/// Certificates that were valid equally long are renewed equally long, whenever they began.
pub proof fn lemma_renewal_depends_on_the_length(
    v: BuilderView,
    one: model::CertificateView,
    other: model::CertificateView,
    now: int,
)
    requires
        one.valid_until - one.created_on == other.valid_until - other.created_on,
    ensures
        builder::renewed(v, one, now).not_after == builder::renewed(v, other, now).not_after,
{
}

/// Every certificate can be renewed whose length in milliseconds has 64 bits with a sign, and time
/// can be counted from every reading of the clock whose distance from 1970 has 64 bits of seconds.
pub proof fn lemma_what_can_be_counted(cert: model::CertificateView, nanos: int)
    ensures
        builder::is_countable(cert) <==> -9_223_372_036_854_775_808 <= cert.valid_until
            - cert.created_on <= 9_223_372_036_854_775_807,
        clock::is_clock_distance(nanos) <==> -18_446_744_073_709_551_616_000_000_000 < nanos
            < 18_446_744_073_709_551_616_000_000_000,
        clock::is_date_time(nanos) <==> -377_705_116_800_000_000_000 <= nanos
            < 253_402_300_800_000_000_000,
{
}

/// A difference of days and seconds is so many milliseconds.
pub proof fn lemma_differences_are_milliseconds(days: int, secs: int)
    ensures
        clock::difference_millis(days, secs) == days * 86_400_000 + secs * 1000,
{
}

}
