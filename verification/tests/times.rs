use tls_cert::clock::asn1_time_to_unix;
use tls_cert::clock::asn1_timestamp_at;
use tls_cert::clock::check_span;
use tls_cert::clock::check_validity;
use tls_cert::clock::get_asn1_timestamp;
use tls_cert::clock::get_timestamp;
use tls_cert::clock::hours_per_unit;
use tls_cert::clock::now_utc;
use tls_cert::clock::timestamp_at;
use tls_cert::clock::ClockReading;
use tls_cert::model::CertError;
use tls_cert::model::CertificateRenewMethod;
use tls_cert::model::TimespanUnit;
use tls_cert::text::crl_uri;
use tls_cert::text::does_fit_asn1;
use tls_cert::text::has_31_bit_length;
use tls_cert::text::has_no_nul;
use tls_cert::text::integer_text;

const SECOND: i128 = 1_000_000_000;

#[test]
fn units_have_their_hours() {
    assert_eq!(hours_per_unit(TimespanUnit::Hour), 1);
    assert_eq!(hours_per_unit(TimespanUnit::Day), 24);
    assert_eq!(hours_per_unit(TimespanUnit::Month), 720);
    assert_eq!(hours_per_unit(TimespanUnit::Year), 8760);
}

#[test]
fn validity_is_counted_from_its_start() {
    let now = 1_700_000_000 * SECOND + 123;
    let hour = 3600 * SECOND;
    assert_eq!(timestamp_at(now, 5, TimespanUnit::Hour), now + 5 * hour);
    assert_eq!(timestamp_at(now, 5, TimespanUnit::Day), now + 5 * 24 * hour);
    assert_eq!(timestamp_at(now, 5, TimespanUnit::Month), now + 5 * 30 * 24 * hour);
    assert_eq!(timestamp_at(now, 5, TimespanUnit::Year), now + 5 * 365 * 24 * hour);
}

#[test]
fn validity_lasts_an_hour_at_least() {
    for unit in [TimespanUnit::Hour, TimespanUnit::Day, TimespanUnit::Month, TimespanUnit::Year] {
        assert_eq!(timestamp_at(7, 0, unit), 7 + 3600 * SECOND);
    }
}

#[test]
fn validity_beyond_the_calendar_does_not_fit() {
    let now = 1_700_000_000 * SECOND;
    assert!(check_validity(now, 7_000, TimespanUnit::Year));
    assert!(!check_validity(now, 9_000, TimespanUnit::Year));
    assert!(!check_validity(now, u64::MAX, TimespanUnit::Hour));
    assert!(!check_validity(now, u64::MAX / 3600 + 1, TimespanUnit::Hour));
    // 2^64 seconds less sixteen are read as sixteen seconds backwards.
    assert_eq!((u64::MAX / 3600) * 3600, u64::MAX - 15);
    assert!(check_validity(now, u64::MAX / 3600, TimespanUnit::Hour));
    assert_eq!(timestamp_at(now, u64::MAX / 3600, TimespanUnit::Hour), now - 16 * SECOND);
}

#[test]
fn present_time_is_read() {
    let now = time::OffsetDateTime::now_utc().unix_timestamp_nanos();
    assert!((now_utc() - now).abs() < 60 * SECOND);
    let end = get_timestamp(2, TimespanUnit::Day).unwrap();
    assert!((end - now - 2 * 86_400 * SECOND).abs() < 60 * SECOND);
    assert!(matches!(
        get_timestamp(u64::MAX, TimespanUnit::Year),
        Err(CertError::TimeOutOfRange)
    ));
    let (millis, seconds) = get_asn1_timestamp(1, TimespanUnit::Hour).unwrap();
    assert_eq!(millis / 1000, seconds);
    assert!((seconds as i128 * SECOND - now - 3600 * SECOND).abs() < 60 * SECOND);
    assert!(matches!(
        get_asn1_timestamp(u64::MAX, TimespanUnit::Hour),
        Err(CertError::TimeOutOfRange)
    ));
}

#[test]
fn certificate_times_are_in_whole_seconds() {
    let after = |nanos: u128| ClockReading::AfterEpoch(nanos);
    let before = |nanos: u128| ClockReading::BeforeEpoch(nanos);
    assert_eq!(
        asn1_timestamp_at(&after(1_234_567_890), 0, TimespanUnit::Hour).unwrap(),
        (1234, 1)
    );
    assert_eq!(
        asn1_timestamp_at(&after(0), 2, TimespanUnit::Month).unwrap(),
        (5_184_000_000, 5_184_000)
    );
    assert_eq!(
        asn1_timestamp_at(&before(3_599_000_000_001), 1, TimespanUnit::Hour).unwrap(),
        (999, 0)
    );
    assert!(matches!(
        asn1_timestamp_at(&before(1), 0, TimespanUnit::Hour),
        Err(CertError::ClockBeforeEpoch)
    ));
    assert!(matches!(
        asn1_timestamp_at(&after(0), u64::MAX, TimespanUnit::Hour),
        Err(CertError::TimeOutOfRange)
    ));
    // Milliseconds of more than 63 bits wrap around.
    let far = 9_223_372_036_854_775_809u128 * 1_000_000;
    assert_eq!(
        asn1_timestamp_at(&after(far), 0, TimespanUnit::Hour).unwrap(),
        (-9_223_372_036_854_775_807, -9_223_372_036_854_775)
    );
}

#[test]
fn timespan_beyond_the_clock_does_not_fit() {
    let last = i64::MAX as u128 * 1_000_000_000;
    assert!(check_span(&ClockReading::AfterEpoch(last + 999_999_999), 0, TimespanUnit::Hour));
    assert!(!check_span(&ClockReading::AfterEpoch(last + 1_000_000_000), 0, TimespanUnit::Hour));
    assert!(!check_span(&ClockReading::AfterEpoch(last), 1, TimespanUnit::Hour));
    assert!(check_span(&ClockReading::BeforeEpoch(last), u64::MAX / 3600, TimespanUnit::Hour));
    assert!(!check_span(&ClockReading::BeforeEpoch(0), u64::MAX / 3600, TimespanUnit::Hour));
    assert!(!check_span(&ClockReading::BeforeEpoch(last), u64::MAX, TimespanUnit::Year));
}

#[test]
fn days_and_seconds_make_milliseconds() {
    assert_eq!(asn1_time_to_unix(0, 0), 0);
    assert_eq!(asn1_time_to_unix(1, 2), 86_402_000);
    assert_eq!(asn1_time_to_unix(-1, -2), -86_402_000);
    assert_eq!(
        asn1_time_to_unix(i32::MAX, i32::MAX),
        (i32::MAX as i64 * 86_400 + i32::MAX as i64) * 1000
    );
}

#[test]
fn integers_are_written_in_decimal() {
    for n in [0, 7, 10, 12_345, -1, -90, i64::MAX, i64::MIN] {
        assert_eq!(integer_text(n), n.to_string());
    }
}

#[test]
fn revocation_list_addresses_are_put_together() {
    assert_eq!(crl_uri("https://ca.example", 7), "https://ca.example/crl/crl-7.crl");
    assert_eq!(crl_uri("", -1), "/crl/crl--1.crl");
}

#[test]
fn texts_are_checked() {
    assert!(has_no_nul(""));
    assert!(has_no_nul("äbc"));
    assert!(!has_no_nul("a\0"));
    assert!(has_31_bit_length("ä"));
    assert!(does_fit_asn1("ä"));
}

#[test]
fn errors_have_their_words() {
    for (error, text) in [
        (CertError::NameNotSet, "X509: name not set"),
        (CertError::ValidUntilNotSet, "X509: valid_until not set"),
        (CertError::UserIdNotSet, "X509: user_id not set"),
        (CertError::CaNotSet, "X509: CA not set"),
        (CertError::CaNotTls, "CA is not of type SSH"),
        (CertError::CsrSignature, "CSR signature verification failed"),
        (CertError::NoArchiveCertificate, "No certificate found in PKCS#12"),
        (CertError::NoArchiveSan, "No SAN found in PKCS#12 certificate"),
        (CertError::NoMetadataCertificate, "No certificate in PKCS#12"),
        (CertError::NoCommonName, "No CN in certificate"),
        (CertError::NoCaCommonName, "No CN in CA certificate"),
    ] {
        assert_eq!(error.text(), text);
    }
    assert_eq!(CertificateRenewMethod::default(), CertificateRenewMethod::NoRenewal);
}
