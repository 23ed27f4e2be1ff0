//! Certificates for signing requests, as an ACME server issues them.
use vstd::prelude::*;

use crate::clock;
use crate::clock::asn1_timestamp_at;
use crate::clock::ClockReading;
use crate::model;
use crate::model::from_openssl;
use crate::model::CertError;
use crate::model::DnAttribute;
use crate::model::TimespanUnit;
use crate::model::CA;
use crate::openssl_api;
use crate::text;
use crate::x509_api;

verus! {

/// The bits of a serial number.
pub const SERIAL_BITS: i32 = 64;

/// The version of a certificate with extensions, counted from zero.
pub const VERSION_3: i32 = 2;

/// The common name of a subject: the first DNS name.
pub open spec fn subject_cn(dns_names: Seq<Seq<char>>) -> Seq<char> {
    if dns_names.len() > 0 {
        dns_names[0]
    } else {
        "acme"@
    }
}

/// The extensions of a certificate for these DNS names.
pub open spec fn issued_extensions(ca_cert: Seq<u8>, dns_names: Seq<Seq<char>>) -> Seq<
    openssl_api::Extension,
> {
    let names = if dns_names.len() > 0 {
        seq![openssl_api::Extension::SubjectAltName(dns_names)]
    } else {
        Seq::empty()
    };
    names + seq![
        openssl_api::Extension::ServerAuth,
        openssl_api::Extension::NotAuthority,
        openssl_api::Extension::SignAndEncipher,
        openssl_api::Extension::SubjectKeyIdentifier,
        openssl_api::Extension::AuthorityKeyIdentifier(ca_cert),
    ]
}

/// Everything that goes into a certificate for a signing request.
pub open spec fn issued_fields(
    public_key: Seq<u8>,
    ca_cert: Seq<u8>,
    ca_key: Seq<u8>,
    serial: Seq<u8>,
    not_before: int,
    not_after: int,
    dns_names: Seq<Seq<char>>,
) -> openssl_api::X509Fields {
    openssl_api::X509Fields {
        version: Some(VERSION_3 as int),
        serial: Some(serial),
        not_before: Some(not_before),
        not_after: Some(not_after),
        public_key: Some(public_key),
        subject: Some(seq![("CN"@, subject_cn(dns_names)), ("OU"@, "ACME"@)]),
        issuer: Some(ca_cert),
        extensions: issued_extensions(ca_cert, dns_names),
        signer: Some(ca_key),
    }
}

/// What is read back from a certificate for a signing request.
pub open spec fn issued_readings(
    der: Seq<u8>,
    serial: Seq<u8>,
    dns_names: Seq<Seq<char>>,
) -> bool {
    &&& der.len() <= i32::MAX
    &&& openssl_api::x509_readable(der)
    &&& openssl_api::x509_der(der) == Some(der)
    &&& openssl_api::is_minimal(serial) ==> openssl_api::x509_serial(der) == Some(serial)
    &&& openssl_api::x509_san(der) == if dns_names.len() > 0 {
        Some(dns_names.map_values(|n: Seq<char>| Some(n)))
    } else {
        None
    }
    &&& openssl_api::x509_subject_text(der, DnAttribute::CommonName) == Some(
        Some(subject_cn(dns_names)),
    )
    &&& openssl_api::x509_subject_text(der, DnAttribute::OrganizationalUnit) == Some(
        Some("ACME"@),
    )
}

/// The ends of the validity that are read back from a certificate for a signing request.
pub open spec fn issued_times(der: Seq<u8>, not_before: int, not_after: int) -> bool {
    &&& openssl_api::is_time_reading(openssl_api::x509_not_before(der, 0), not_before)
    &&& openssl_api::is_time_reading(openssl_api::x509_not_after(der, 0), not_after)
}

/// The serial number that `x509-parser` reads in a certificate for a signing request.
pub open spec fn issued_parser_serial(
    ca_cert: Seq<u8>,
    der: Seq<u8>,
    serial: Seq<u8>,
    not_before: int,
    not_after: int,
) -> bool {
    let parsed = x509_api::x509_parser_certificate(der);
    openssl_api::is_minimal(serial) && openssl_api::parser_reads(
        ca_cert,
        not_before,
        not_after,
        der,
    ) ==> parsed is Some && parsed->0.serial == openssl_api::parser_bytes(serial)
}

/// The certificate is one for a public key with this serial number and for these DNS names. It is
/// valid from `start`, what the clock showed at first, until so many days after `end`, what the
/// clock showed then.
pub open spec fn is_issued_at(
    public_key: Seq<u8>,
    ca_cert: Seq<u8>,
    ca_key: Seq<u8>,
    serial: Seq<u8>,
    start: int,
    end: int,
    validity_days: u64,
    dns_names: Seq<Seq<char>>,
    der: Seq<u8>,
) -> bool {
    let not_before = clock::span_end_seconds(start, 0, TimespanUnit::Hour);
    let not_after = clock::span_end_seconds(end, validity_days, TimespanUnit::Day);
    &&& clock::is_span_counted(start, 0, TimespanUnit::Hour)
    &&& clock::is_span_counted(end, validity_days, TimespanUnit::Day)
    &&& openssl_api::x509_built(
        issued_fields(public_key, ca_cert, ca_key, serial, not_before, not_after, dns_names),
        der,
    )
    &&& issued_readings(der, serial, dns_names)
    &&& issued_times(der, not_before, not_after)
    &&& issued_parser_serial(ca_cert, der, serial, not_before, not_after)
}

/// The certificate is an answer to the request: for the key of the request, with a random serial
/// number, valid from what the clock shows and for so many days, and for these DNS names.
pub open spec fn is_answer(
    csr: Seq<u8>,
    ca: model::CAView,
    validity_days: u64,
    dns_names: Seq<Seq<char>>,
    serial: Seq<u8>,
    der: Seq<u8>,
) -> bool {
    exists|start: int, end: int|
        {
            &&& #[trigger] clock::system_clock_shows(start)
            &&& #[trigger] clock::system_clock_shows(end)
            &&& is_issued_at(
                openssl_api::csr_public_key(csr),
                ca.cert,
                ca.key,
                serial,
                start,
                end,
                validity_days,
                dns_names,
                der,
            )
        }
}

/// The DNS names can be put into a certificate.
pub open spec fn names_fit(dns_names: Seq<String>) -> bool {
    forall|i: int| 0 <= i < dns_names.len() ==> openssl_api::fits_asn1(#[trigger] dns_names[i]@)
}

/// Whether the DNS names can be put into a certificate.
pub fn check_names(dns_names: &[String]) -> (r: bool)
    ensures
        r == names_fit(dns_names@),
{
    for i in 0..dns_names.len()
        invariant
            forall|j: int| 0 <= j < i ==> openssl_api::fits_asn1(#[trigger] dns_names@[j]@),
    {
        if !text::does_fit_asn1(dns_names[i].as_str()) {
            return false;
        }
    }
    true
}

/// A random serial number, most significant byte first.
pub fn generate_asn1_serial_number() -> (r: Result<Vec<u8>, CertError>)
    ensures
        match r {
            Ok(serial) => openssl_api::is_minimal(serial@) && serial@.len() <= 8,
            Err(e) => e is OpenSsl,
        },
{
    from_openssl(openssl_api::random_number(SERIAL_BITS))
}

/// The DNS names as the alternative names of a subject.
fn put_names(builder: &mut openssl::x509::X509Builder, dns_names: &[String]) -> (r: Result<
    (),
    CertError,
>)
    requires
        names_fit(dns_names@),
    ensures
        match r {
            Ok(_) => openssl_api::builder_fields(*final(builder)) == openssl_api::with_extension(
                openssl_api::builder_fields(*old(builder)),
                openssl_api::Extension::SubjectAltName(model::texts(dns_names@)),
            ),
            Err(e) => e is OpenSsl,
        },
{
    let mut san = openssl_api::san_new();
    for i in 0..dns_names.len()
        invariant
            names_fit(dns_names@),
            openssl_api::san_names(san) == model::texts(dns_names@.take(i as int)),
    {
        openssl_api::san_push_dns(&mut san, dns_names[i].as_str());
        assert(dns_names@.take(i + 1).drop_last() == dns_names@.take(i as int));
        assert(model::texts(dns_names@.take(i + 1)) == model::texts(dns_names@.take(i as int)).push(
            dns_names@[i as int]@,
        ));
    }
    assert(dns_names@.take(dns_names@.len() as int) == dns_names@);
    from_openssl(openssl_api::append_subject_alt_name(builder, &san))
}

/// The certificate for a public key, in DER.
pub fn issue_certificate(
    public_key: &[u8],
    ca_cert: &[u8],
    ca_key: &[u8],
    serial: &[u8],
    not_before: i64,
    not_after: i64,
    dns_names: &[String],
) -> (r: Result<Vec<u8>, CertError>)
    requires
        serial@.len() <= i32::MAX,
        names_fit(dns_names@),
    ensures
        match r {
            Ok(der) => {
                let fields = issued_fields(
                    public_key@,
                    ca_cert@,
                    ca_key@,
                    serial@,
                    not_before as int,
                    not_after as int,
                    model::texts(dns_names@),
                );
                &&& openssl_api::x509_readable(ca_cert@)
                &&& openssl_api::private_key_readable(ca_key@)
                &&& openssl_api::x509_built(fields, der@)
                &&& issued_readings(der@, serial@, model::texts(dns_names@))
                &&& issued_times(der@, not_before as int, not_after as int)
                &&& issued_parser_serial(
                    ca_cert@,
                    der@,
                    serial@,
                    not_before as int,
                    not_after as int,
                )
            },
            Err(e) => e is OpenSsl,
        },
{
    let mut x509 = from_openssl(openssl_api::builder_new())?;
    from_openssl(openssl_api::set_version(&mut x509, VERSION_3))?;
    from_openssl(openssl_api::set_serial_number(&mut x509, serial))?;
    from_openssl(openssl_api::set_not_before(&mut x509, not_before))?;
    from_openssl(openssl_api::set_not_after(&mut x509, not_after))?;
    from_openssl(openssl_api::set_public_key(&mut x509, public_key))?;
    let cn: &str = if dns_names.len() > 0 {
        dns_names[0].as_str()
    } else {
        "acme"
    };
    proof {
        reveal_strlit("CN");
        reveal_strlit("OU");
        reveal_strlit("ACME");
        reveal_strlit("acme");
        vstd::utf8::is_ascii_chars_encode_utf8("ACME"@);
        vstd::utf8::is_ascii_chars_encode_utf8("acme"@);
    }
    let mut name = from_openssl(openssl_api::name_new())?;
    from_openssl(openssl_api::name_append(&mut name, "CN", cn))?;
    from_openssl(openssl_api::name_append(&mut name, "OU", "ACME"))?;
    from_openssl(openssl_api::set_subject_name(&mut x509, name))?;
    if dns_names.len() > 0 {
        put_names(&mut x509, dns_names)?;
    }
    from_openssl(openssl_api::append_server_auth(&mut x509))?;
    from_openssl(openssl_api::append_not_authority(&mut x509))?;
    from_openssl(openssl_api::append_sign_and_encipher(&mut x509))?;
    from_openssl(openssl_api::set_issuer_name(&mut x509, ca_cert))?;
    from_openssl(openssl_api::append_subject_key_identifier(&mut x509))?;
    from_openssl(openssl_api::append_authority_key_identifier(&mut x509, ca_cert))?;
    from_openssl(openssl_api::sign(&mut x509, ca_key))?;
    assert(openssl_api::builder_fields(x509).extensions == issued_extensions(
        ca_cert@,
        model::texts(dns_names@),
    ));
    assert(openssl_api::builder_fields(x509).subject->0 == seq![
        ("CN"@, subject_cn(model::texts(dns_names@))),
        ("OU"@, "ACME"@),
    ]);
    proof {
        reveal_with_fuel(openssl_api::extension_names, 6);
        reveal_with_fuel(openssl_api::first_entry, 2);
        assert("CN"@[0] != "OU"@[0]);
    }
    from_openssl(openssl_api::build(x509))
}

/// What `issue_at` gives back. A time that cannot be counted or lies before 1970 is an error, that
/// of the start before that of the end.
pub open spec fn issue_at_result(
    public_key: Seq<u8>,
    ca_cert: Seq<u8>,
    ca_key: Seq<u8>,
    serial: Seq<u8>,
    start: int,
    end: int,
    validity_days: u64,
    dns_names: Seq<Seq<char>>,
    r: Result<Vec<u8>, CertError>,
) -> bool {
    if !clock::span_fits(start, 0, TimespanUnit::Hour) {
        r is Err && r->Err_0 is TimeOutOfRange
    } else if clock::span_end(start, 0, TimespanUnit::Hour) < 0 {
        r is Err && r->Err_0 is ClockBeforeEpoch
    } else if !clock::span_fits(end, validity_days, TimespanUnit::Day) {
        r is Err && r->Err_0 is TimeOutOfRange
    } else if clock::span_end(end, validity_days, TimespanUnit::Day) < 0 {
        r is Err && r->Err_0 is ClockBeforeEpoch
    } else {
        match r {
            Ok(der) => {
                &&& openssl_api::x509_readable(ca_cert)
                &&& openssl_api::private_key_readable(ca_key)
                &&& is_issued_at(
                    public_key,
                    ca_cert,
                    ca_key,
                    serial,
                    start,
                    end,
                    validity_days,
                    dns_names,
                    der@,
                )
            },
            Err(e) => e is OpenSsl,
        }
    }
}

/// The certificate for a public key, in DER: valid from the first reading of the clock, until so
/// many days after the second.
pub fn issue_at(
    public_key: &[u8],
    ca_cert: &[u8],
    ca_key: &[u8],
    serial: &[u8],
    start: &ClockReading,
    end: &ClockReading,
    validity_days: u64,
    dns_names: &[String],
) -> (r: Result<Vec<u8>, CertError>)
    requires
        serial@.len() <= i32::MAX,
        names_fit(dns_names@),
        clock::is_clock_distance(clock::reading_nanos(*start)),
        clock::is_clock_distance(clock::reading_nanos(*end)),
    ensures
        issue_at_result(
            public_key@,
            ca_cert@,
            ca_key@,
            serial@,
            clock::reading_nanos(*start),
            clock::reading_nanos(*end),
            validity_days,
            model::texts(dns_names@),
            r,
        ),
{
    let (_, not_before): (i64, i64) = asn1_timestamp_at(start, 0, TimespanUnit::Hour)?;
    let (_, not_after): (i64, i64) = asn1_timestamp_at(end, validity_days, TimespanUnit::Day)?;
    issue_certificate(
        public_key,
        ca_cert,
        ca_key,
        serial,
        not_before,
        not_after,
        dns_names,
    )
}

/// Refuses a request whose signature did not verify.
pub fn refuse_unverified(verified: bool) -> (r: Result<(), CertError>)
    ensures
        match r {
            Ok(()) => verified,
            Err(e) => e is CsrSignature && !verified,
        },
{
    if verified {
        Ok(())
    } else {
        Err(CertError::CsrSignature)
    }
}

/// A certificate in PEM, the certificate and its authority's one after the other, and the serial
/// number.
pub fn issued_parts(cert_pem: Vec<u8>, ca_pem: &Vec<u8>, serial: Vec<u8>) -> (r: (
    Vec<u8>,
    Vec<u8>,
    Vec<u8>,
))
    ensures
        r.0@ == cert_pem@,
        r.1@ == cert_pem@ + ca_pem@,
        r.2@ == serial@,
{
    let mut chain_pem: Vec<u8> = cert_pem.clone();
    chain_pem.extend_from_slice(ca_pem.as_slice());
    (cert_pem, chain_pem, serial)
}

/// The request, and the authority's certificate and key, can be read.
pub open spec fn is_input_readable(csr: Seq<u8>, ca: model::CAView) -> bool {
    &&& openssl_api::csr_readable(csr)
    &&& openssl_api::x509_readable(ca.cert)
    &&& openssl_api::private_key_readable(ca.key)
}

/// These are a certificate for the request in PEM, its chain, and its serial number.
pub open spec fn is_issued(
    csr: Seq<u8>,
    ca: model::CAView,
    validity_days: u64,
    dns_names: Seq<Seq<char>>,
    cert_pem: Seq<u8>,
    chain_pem: Seq<u8>,
    serial: Seq<u8>,
) -> bool {
    exists|der: Seq<u8>, ca_pem: Seq<u8>|
        {
            &&& #[trigger] openssl_api::is_pem_of(der, cert_pem)
            &&& #[trigger] openssl_api::is_pem_of(ca.cert, ca_pem)
            &&& is_answer(csr, ca, validity_days, dns_names, serial, der)
            &&& issued_readings(der, serial, dns_names)
            &&& chain_pem == cert_pem + ca_pem
            &&& openssl_api::is_minimal(serial) && serial.len() <= 8
        }
}

/// What `issue_cert_from_csr` gives back. A request whose signature does not verify is refused.
/// Without a readable request, authority's certificate and authority's key there is no
/// certificate. The clock is read only after all of that.
pub open spec fn issue_result(
    csr: Seq<u8>,
    ca: model::CAView,
    validity_days: u64,
    dns_names: Seq<Seq<char>>,
    r: Result<(Vec<u8>, Vec<u8>, Vec<u8>), CertError>,
) -> bool {
    match r {
        Ok((cert_pem, chain_pem, serial)) => {
            &&& openssl_api::csr_verdict(csr, true)
            &&& is_input_readable(csr, ca)
            &&& is_issued(csr, ca, validity_days, dns_names, cert_pem@, chain_pem@, serial@)
        },
        Err(CertError::CsrSignature) => {
            &&& openssl_api::csr_readable(csr)
            &&& openssl_api::csr_verdict(csr, false)
        },
        Err(CertError::TimeOutOfRange) => {
            &&& openssl_api::csr_verdict(csr, true)
            &&& is_input_readable(csr, ca)
            &&& exists|now: int| #[trigger]
                clock::system_clock_shows(now) && (!clock::span_fits(now, 0, TimespanUnit::Hour)
                    || !clock::span_fits(now, validity_days, TimespanUnit::Day))
        },
        Err(CertError::ClockBeforeEpoch) => {
            &&& openssl_api::csr_verdict(csr, true)
            &&& is_input_readable(csr, ca)
            &&& exists|now: int| #[trigger]
                clock::system_clock_shows(now) && (clock::span_end(now, 0, TimespanUnit::Hour) < 0
                    || clock::span_end(now, validity_days, TimespanUnit::Day) < 0)
        },
        Err(e) => e is OpenSsl,
    }
}

/// Issues a server certificate for a signing request: the certificate in PEM, the certificate and
/// its authority's one after the other, and the bytes of the serial number. The signature of the
/// request is verified first. The common name of the subject is the first DNS name.
pub fn issue_cert_from_csr(
    csr_der: &[u8],
    ca: &CA,
    validity_days: u64,
    dns_names: &[String],
) -> (r: Result<(Vec<u8>, Vec<u8>, Vec<u8>), CertError>)
    requires
        names_fit(dns_names@),
    ensures
        issue_result(csr_der@, ca@, validity_days, model::texts(dns_names@), r),
        !openssl_api::csr_readable(csr_der@) ==> r is Err && r->Err_0 is OpenSsl,
        !openssl_api::csr_verdict(csr_der@, true) ==> r is Err && (r->Err_0 is CsrSignature
            || r->Err_0 is OpenSsl),
{
    from_openssl(openssl_api::check_request(csr_der))?;
    let public_key: Vec<u8> = from_openssl(openssl_api::request_public_key(csr_der))?;
    let verified: bool = from_openssl(openssl_api::request_verify(csr_der))?;
    refuse_unverified(verified)?;
    from_openssl(openssl_api::certificate_from_der(ca.cert.as_slice()))?;
    from_openssl(openssl_api::check_private_key(ca.key.as_slice()))?;
    let serial: Vec<u8> = generate_asn1_serial_number()?;
    let start = clock::system_now();
    let end = clock::system_now();
    let cert: Vec<u8> = issue_at(
        public_key.as_slice(),
        ca.cert.as_slice(),
        ca.key.as_slice(),
        serial.as_slice(),
        &start,
        &end,
        validity_days,
        dns_names,
    )?;
    let serial_bytes: Vec<u8> = from_openssl(openssl_api::certificate_serial(cert.as_slice()))?;
    let cert_pem: Vec<u8> = from_openssl(openssl_api::certificate_to_pem(cert.as_slice()))?;
    let ca_pem: Vec<u8> = from_openssl(openssl_api::certificate_to_pem(ca.cert.as_slice()))?;
    assert(clock::system_clock_shows(clock::reading_nanos(start)));
    assert(clock::system_clock_shows(clock::reading_nanos(end)));
    assert(serial_bytes@ == serial@);
    assert(is_answer(
        csr_der@,
        ca@,
        validity_days,
        model::texts(dns_names@),
        serial_bytes@,
        cert@,
    ));
    assert(openssl_api::is_pem_of(cert@, cert_pem@));
    assert(openssl_api::is_pem_of(ca@.cert, ca_pem@));
    let parts = issued_parts(cert_pem, &ca_pem, serial_bytes);
    assert(is_issued(
        csr_der@,
        ca@,
        validity_days,
        model::texts(dns_names@),
        parts.0@,
        parts.1@,
        parts.2@,
    ));
    Ok(parts)
}

}
