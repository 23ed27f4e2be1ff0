//! What holds across functions. Here stands what is read back of what was built; below it stand
//! what is in a certificate, what is read in any certificate, what the records hold, how long
//! things last, and texts.
pub mod content;
pub mod found;
pub mod records;
pub mod terms;
pub mod texts;

use vstd::prelude::*;

use crate::acme;
use crate::builder;
use crate::builder::BuilderView;
use crate::clock;
use crate::model;
use crate::model::CAType;
use crate::model::CertError;
use crate::model::CertificateType;
use crate::model::DataFormat;
use crate::model::DnAttribute;
use crate::model::Name;
use crate::model::TimespanUnit;
use crate::model::CA;
use crate::openssl_api;
use crate::rcgen_api;
use crate::rcgen_api::ExtendedUse;
use crate::rcgen_api::SanView;
use crate::reading;
use crate::x509_api;

verus! {

/// The DNS names among alternative names, in order.
pub open spec fn dns_of(sans: Seq<SanView>) -> Seq<Seq<char>>
    decreases sans.len(),
{
    if sans.len() == 0 {
        Seq::empty()
    } else {
        match sans.last() {
            SanView::Dns(name) => dns_of(sans.drop_last()).push(name),
            SanView::Email(_) => dns_of(sans.drop_last()),
        }
    }
}

/// An authority that is read out of what was built: everything as in the builder, the start of the
/// validity to the second.
pub open spec fn is_read_back(v: BuilderView, built: model::CAView, read: model::CAView) -> bool {
    read == model::CAView {
        created_on: builder::until_millis(v.not_before as int) as i64,
        crl_number: read.crl_number,
        ..built
    }
}

/// The texts of the common name and the organizational unit in a subject.
proof fn lemma_subject_texts(name: model::NameView)
    ensures
        rcgen_api::attribute_texts(builder::subject_of(name), DnAttribute::CommonName) == seq![
            Some(name.cn),
        ],
        rcgen_api::attribute_texts(builder::subject_of(name), DnAttribute::OrganizationalUnit)
            == match name.ou {
            Some(ou) => seq![Some(ou)],
            None => Seq::empty(),
        },
{
    reveal_with_fuel(rcgen_api::attribute_texts, 3);
    let subject = builder::subject_of(name);
    assert(rcgen_api::attribute_texts(subject, DnAttribute::CommonName) =~= seq![Some(name.cn)]);
    match name.ou {
        Some(ou) => {
            assert(rcgen_api::attribute_texts(subject, DnAttribute::OrganizationalUnit) =~= seq![
                Some(ou),
            ]);
        },
        None => {
            assert(rcgen_api::attribute_texts(subject, DnAttribute::OrganizationalUnit)
                =~= Seq::empty());
        },
    }
}

/// The authority that `build_ca` makes is the one that `parse_ca` reads out of its certificate and
/// key: name, end of the validity, kind, certificate and key are the same, and the start of the
/// validity is the same to the second.
pub proof fn lemma_built_ca_is_read_back(
    v: BuilderView,
    ca: model::CAView,
    crl_number: i64,
    r: Result<CA, CertError>,
)
    requires
        builder::is_valid(v),
        builder::is_built_ca(v, ca),
        ca.cert.len() <= u32::MAX,
        reading::parse_ca_result(ca.cert, ca.key, DataFormat::DER, crl_number, r),
    ensures
        r matches Ok(read) && is_read_back(v, ca, read@) && read@.crl_number == crl_number,
{
    lemma_subject_texts(v.name->0);
}

/// The start of the validity that `parse_ca` reads is the one in the record of `build_ca` without
/// its milliseconds, for a validity that starts after 1970.
pub proof fn lemma_read_start_is_rounded(v: BuilderView, built: model::CAView, read: model::CAView)
    requires
        builder::is_valid(v),
        v.not_before >= 0,
        builder::is_built_ca(v, built),
        is_read_back(v, built, read),
    ensures
        read.created_on == built.created_on - built.created_on % 1000,
{
    let nanos = v.not_before as int;
    assert(nanos / 1_000_000_000 == (nanos / 1_000_000) / 1000);
}

/// `parse_ca` makes the same of PEM as of the DER in it.
pub proof fn lemma_pem_and_der_agree(
    cert_pem: Seq<u8>,
    key_pem: Seq<u8>,
    cert_der: Seq<u8>,
    key_der: Seq<u8>,
    crl_number: i64,
    r: Result<CA, CertError>,
)
    requires
        x509_api::x509_parser_pem(cert_pem) == Some(cert_der),
        x509_api::x509_parser_pem(key_pem) == Some(key_der),
        reading::parse_ca_result(cert_pem, key_pem, DataFormat::PEM, crl_number, r),
    ensures
        reading::parse_ca_result(cert_der, key_der, DataFormat::DER, crl_number, r),
{
}

/// An authority that `build_ca` made is written by `get_tls_pem`, and `parse_ca` reads it from the
/// text, with the key in PEM. Its name must not be too long for `openssl`, and its certificate not
/// for PEM.
pub proof fn lemma_written_ca_is_read_back(
    v: BuilderView,
    ca: model::CAView,
    written: Result<Vec<u8>, CertError>,
    key_pem: Seq<u8>,
    crl_number: i64,
    r: Result<CA, CertError>,
)
    requires
        builder::is_valid(v),
        builder::is_built_ca(v, ca),
        rcgen_api::is_openssl_sized(builder::ca_params(v), ca.cert),
        reading::tls_pem_result(ca.cert, written),
        x509_api::x509_parser_pem(key_pem) == Some(ca.key),
        written matches Ok(pem) ==> reading::parse_ca_result(
            pem@,
            key_pem,
            DataFormat::PEM,
            crl_number,
            r,
        ),
    ensures
        written is Ok,
        r matches Ok(read) && is_read_back(v, ca, read@) && read@.crl_number == crl_number,
{
    let pem = (written->Ok_0)@;
    assert(pem + Seq::<u8>::empty() =~= pem);
    assert(x509_api::x509_parser_pem(pem + Seq::<u8>::empty()) == openssl_api::x509_der(ca.cert));
    lemma_pem_and_der_agree(pem, key_pem, ca.cert, ca.key, crl_number, r);
    lemma_built_ca_is_read_back(v, ca, crl_number, r);
}

/// An authority that `build_ca` makes or `parse_ca` reads is one for TLS, which `set_ca` takes.
pub proof fn lemma_authorities_are_for_tls(
    v: BuilderView,
    built: model::CAView,
    cert_bytes: Seq<u8>,
    key_bytes: Seq<u8>,
    data_format: DataFormat,
    crl_number: i64,
    r: Result<CA, CertError>,
)
    requires
        builder::is_built_ca(v, built),
        reading::parse_ca_result(cert_bytes, key_bytes, data_format, crl_number, r),
    ensures
        built.ca_type == CAType::TLS,
        r matches Ok(read) ==> read.ca_type == CAType::TLS,
{
    if let Ok(read) = r {
        assert(read@.ca_type == read.ca_type);
    }
}

/// The certificate is that of an authority that `build_ca` makes, within 32 bits of length.
pub open spec fn is_built_authority(cert: Seq<u8>) -> bool {
    &&& cert.len() <= u32::MAX
    &&& exists|v: BuilderView, ca: model::CAView| #[trigger]
        builder::is_built_ca(v, ca) && ca.cert == cert
}

/// The certificate is that of an authority that `parse_ca` reads.
pub open spec fn is_read_authority(cert: Seq<u8>) -> bool {
    exists|
        cert_bytes: Seq<u8>,
        key_bytes: Seq<u8>,
        data_format: DataFormat,
        crl_number: i64,
        ca: CA,
    | #[trigger]
        reading::parse_ca_result(cert_bytes, key_bytes, data_format, crl_number, Ok(ca))
            && ca@.cert == cert
}

/// The certificate of an authority that `build_ca` makes, within 32 bits of length, or that
/// `parse_ca` reads can be read by `x509-parser`.
pub proof fn lemma_authorities_can_be_read(cert: Seq<u8>)
    requires
        is_built_authority(cert) || is_read_authority(cert),
    ensures
        x509_api::x509_parser_certificate(cert) is Some,
{
}

/// The subject of an authority that `build_ca` makes, within 32 bits of length, can be written as
/// an issuer, which building a certificate under it asks for.
pub proof fn lemma_built_authorities_can_issue(cert: Seq<u8>)
    requires
        is_built_authority(cert),
    ensures
        rcgen_api::is_issuer(cert),
{
    let (v, ca) = choose|v: BuilderView, ca: model::CAView| #[trigger]
        builder::is_built_ca(v, ca) && ca.cert == cert;
    let subject = builder::subject_of(v.name->0);
    let attributes = rcgen_api::written_attributes(subject);
    assert forall|i: int| 0 <= i < attributes.len() implies rcgen_api::is_issuer_attribute(
        #[trigger] attributes[i],
    ) by {
        assert(attributes[i].oid == x509_api::attribute_oid(subject[i].0));
    }
}

/// The texts that are kept of alternative names as they are read back are the DNS names.
proof fn lemma_kept_of_sans(sans: Seq<SanView>)
    ensures
        sans.len() > 0 ==> reading::kept_texts(rcgen_api::san_reading(sans)->0) == dns_of(sans),
        sans.len() == 0 ==> dns_of(sans).len() == 0,
    decreases sans.len(),
{
    if sans.len() > 0 {
        let all = rcgen_api::san_reading(sans)->0;
        let rest = sans.drop_last();
        lemma_kept_of_sans(rest);
        if rest.len() > 0 {
            assert(all.drop_last() =~= rcgen_api::san_reading(rest)->0);
        } else {
            assert(reading::kept_texts(all.drop_last()) =~= dns_of(rest));
        }
        assert(all.last() == match sans.last() {
            SanView::Dns(name) => Some(name),
            SanView::Email(_) => None,
        });
    }
}

/// What is found in a built archive is a certificate with what was put into the builder.
proof fn lemma_archive_holds(
    v: BuilderView,
    certificate_type: CertificateType,
    extended_use: Option<ExtendedUse>,
    crl_base: Option<Seq<char>>,
    cert: model::CertificateView,
    p12: Seq<u8>,
    found: Option<Seq<u8>>,
)
    requires
        builder::is_built_leaf(v, certificate_type, extended_use, crl_base, cert),
        cert.data == model::CertDataView::Pkcs12(p12),
        !openssl_api::x509_matches_key((v.ca->0).1, v.key),
        openssl_api::pkcs12_finds(p12, v.password, found),
    ensures
        cert == builder::leaf_record(v, certificate_type, p12),
        found matches Some(der) && openssl_api::x509_readable(der) && rcgen_api::readings(
            builder::leaf_params(v, extended_use, crl_base),
            der,
        ),
{
    let (archive, der) = choose|archive: Seq<u8>, der: Seq<u8>|
        cert == builder::leaf_record(v, certificate_type, archive) && #[trigger]
        builder::is_archive_of(v, extended_use, crl_base, archive, der);
    assert(builder::is_archive_of(v, extended_use, crl_base, archive, der));
}

/// The DNS names that `names_of` reads in the certificate of a built archive are those that were
/// put into the builder, in order. If nothing was put into the alternative names, there are none
/// to read. The authority's certificate must not hold the builder's own key, by which the
/// certificate is found in the archive.
pub proof fn lemma_found_dns_names_are_those_built(
    v: BuilderView,
    certificate_type: CertificateType,
    extended_use: Option<ExtendedUse>,
    crl_base: Option<Seq<char>>,
    cert: model::CertificateView,
    p12: Seq<u8>,
    found: Option<Seq<u8>>,
    r: Result<Vec<String>, CertError>,
)
    requires
        builder::is_built_leaf(v, certificate_type, extended_use, crl_base, cert),
        cert.data == model::CertDataView::Pkcs12(p12),
        !openssl_api::x509_matches_key((v.ca->0).1, v.key),
        openssl_api::pkcs12_finds(p12, v.password, found),
        reading::found_names_result(found, r),
    ensures
        v.sans.len() > 0 ==> (r matches Ok(names) && model::texts(names@) == dns_of(v.sans)),
        v.sans.len() == 0 ==> (r matches Err(e) && e is NoArchiveSan),
{
    lemma_archive_holds(v, certificate_type, extended_use, crl_base, cert, p12, found);
    lemma_kept_of_sans(v.sans);
}

/// The DNS names that `get_dns_names` reads out of a built certificate are those that were put
/// into the builder, in order. If nothing was put into the alternative names, there are none to
/// read. An archive that is not opened gives an error of `openssl`. The authority's certificate
/// must not hold the builder's own key, by which the certificate is found in the archive.
pub proof fn lemma_built_dns_names_are_read_back(
    v: BuilderView,
    certificate_type: CertificateType,
    extended_use: Option<ExtendedUse>,
    crl_base: Option<Seq<char>>,
    cert: model::CertificateView,
    r: Result<Vec<String>, CertError>,
)
    requires
        builder::is_built_leaf(v, certificate_type, extended_use, crl_base, cert),
        !openssl_api::x509_matches_key((v.ca->0).1, v.key),
        reading::dns_names_result(cert.data, cert.password, r),
    ensures
        match r {
            Ok(names) => v.sans.len() > 0 && model::texts(names@) == dns_of(v.sans),
            Err(CertError::NoArchiveSan) => v.sans.len() == 0,
            Err(e) => e is OpenSsl,
        },
{
    let p12 = cert.data->Pkcs12_0;
    if !(r is Err && r->Err_0 is OpenSsl) {
        let found = choose|found: Option<Seq<u8>>| #[trigger]
            openssl_api::pkcs12_finds(p12, v.password, found) && reading::is_found_readable(found)
                && reading::found_names_result(found, r);
        lemma_found_dns_names_are_those_built(
            v,
            certificate_type,
            extended_use,
            crl_base,
            cert,
            p12,
            found,
            r,
        );
    }
}

/// What is read of a built certificate: the name and the end of the validity of its record, and
/// the start of the validity to the second.
pub open spec fn is_metadata_of(
    v: BuilderView,
    cert: model::CertificateView,
    name: model::NameView,
    created_on: i64,
    valid_until: i64,
) -> bool {
    &&& name == cert.name
    &&& created_on == builder::until_millis(v.not_before as int)
    &&& v.not_before >= 0 ==> created_on == cert.created_on - cert.created_on % 1000
    &&& valid_until == cert.valid_until
}

/// What `metadata_of` reads in the certificate of a built archive is what its record says, the
/// start of the validity to the second. The authority's certificate must not hold the builder's
/// own key, by which the certificate is found in the archive.
pub proof fn lemma_found_metadata_is_that_built(
    v: BuilderView,
    certificate_type: CertificateType,
    extended_use: Option<ExtendedUse>,
    crl_base: Option<Seq<char>>,
    cert: model::CertificateView,
    p12: Seq<u8>,
    found: Option<Seq<u8>>,
    r: Result<(Name, i64, i64), CertError>,
)
    requires
        builder::is_valid(v),
        builder::is_built_leaf(v, certificate_type, extended_use, crl_base, cert),
        cert.data == model::CertDataView::Pkcs12(p12),
        !openssl_api::x509_matches_key((v.ca->0).1, v.key),
        openssl_api::pkcs12_finds(p12, v.password, found),
        reading::found_metadata_result(found, r),
    ensures
        r matches Ok((name, created_on, valid_until)) && is_metadata_of(
            v,
            cert,
            name@,
            created_on,
            valid_until,
        ),
{
    lemma_archive_holds(v, certificate_type, extended_use, crl_base, cert, p12, found);
    lemma_subject_texts(v.name->0);
    let nanos = v.not_before as int;
    assert(nanos / 1_000_000_000 == (nanos / 1_000_000) / 1000);
}

/// What `parse_p12_metadata` reads out of a built archive is what its record says, the start of
/// the validity to the second. An archive that is not opened gives an error of `openssl`. The
/// authority's certificate must not hold the builder's own key, by which the certificate is found
/// in the archive.
pub proof fn lemma_built_metadata_is_read_back(
    v: BuilderView,
    certificate_type: CertificateType,
    extended_use: Option<ExtendedUse>,
    crl_base: Option<Seq<char>>,
    cert: model::CertificateView,
    p12: Seq<u8>,
    r: Result<(Name, i64, i64), CertError>,
)
    requires
        builder::is_valid(v),
        builder::is_built_leaf(v, certificate_type, extended_use, crl_base, cert),
        cert.data == model::CertDataView::Pkcs12(p12),
        !openssl_api::x509_matches_key((v.ca->0).1, v.key),
        reading::metadata_result(p12, v.password, r),
    ensures
        match r {
            Ok((name, created_on, valid_until)) => is_metadata_of(
                v,
                cert,
                name@,
                created_on,
                valid_until,
            ),
            Err(e) => e is OpenSsl,
        },
{
    if !(r is Err && r->Err_0 is OpenSsl) {
        let found = choose|found: Option<Seq<u8>>| #[trigger]
            openssl_api::pkcs12_finds(p12, v.password, found) && reading::is_found_readable(found)
                && reading::found_metadata_result(found, r);
        lemma_found_metadata_is_that_built(
            v,
            certificate_type,
            extended_use,
            crl_base,
            cert,
            p12,
            found,
            r,
        );
    }
}

/// The serial number that `serial_of` reads in the certificate of a built archive is the
/// builder's. The authority's certificate must not hold the builder's own key, by which the
/// certificate is found in the archive.
pub proof fn lemma_found_serial_is_that_built(
    v: BuilderView,
    certificate_type: CertificateType,
    extended_use: Option<ExtendedUse>,
    crl_base: Option<Seq<char>>,
    cert: model::CertificateView,
    p12: Seq<u8>,
    found: Option<Seq<u8>>,
    r: Result<Vec<u8>, CertError>,
)
    requires
        builder::is_built_leaf(v, certificate_type, extended_use, crl_base, cert),
        cert.data == model::CertDataView::Pkcs12(p12),
        !openssl_api::x509_matches_key((v.ca->0).1, v.key),
        openssl_api::pkcs12_finds(p12, v.password, found),
        reading::found_serial_result(found, r),
    ensures
        r matches Ok(serial) && openssl_api::is_minimal(serial@) && openssl_api::big_endian(
            serial@,
        ) == v.serial,
{
    lemma_archive_holds(v, certificate_type, extended_use, crl_base, cert, p12, found);
}

/// The serial number that `extract_pkcs12_serial_number` reads out of a built archive is the
/// builder's. An archive that is not opened gives an error of `openssl`. The authority's
/// certificate must not hold the builder's own key, by which the certificate is found in the
/// archive.
pub proof fn lemma_built_serial_is_read_back(
    v: BuilderView,
    certificate_type: CertificateType,
    extended_use: Option<ExtendedUse>,
    crl_base: Option<Seq<char>>,
    cert: model::CertificateView,
    p12: Seq<u8>,
    r: Result<Vec<u8>, CertError>,
)
    requires
        builder::is_built_leaf(v, certificate_type, extended_use, crl_base, cert),
        cert.data == model::CertDataView::Pkcs12(p12),
        !openssl_api::x509_matches_key((v.ca->0).1, v.key),
        reading::archive_serial_result(p12, v.password, r),
    ensures
        match r {
            Ok(serial) => {
                &&& openssl_api::is_minimal(serial@)
                &&& openssl_api::big_endian(serial@) == v.serial
            },
            Err(e) => e is OpenSsl,
        },
{
    if !(r is Err && r->Err_0 is OpenSsl) {
        let found = choose|found: Option<Seq<u8>>| #[trigger]
            openssl_api::pkcs12_finds(p12, v.password, found) && reading::is_found_readable(found)
                && reading::found_serial_result(found, r);
        lemma_found_serial_is_that_built(
            v,
            certificate_type,
            extended_use,
            crl_base,
            cert,
            p12,
            found,
            r,
        );
    }
}

/// `metadata_of` and `parse_ca` read the same name and the same validity in the certificate of a
/// built archive, if `parse_ca` can read its length. The authority's certificate must not hold the
/// builder's own key, by which the certificate is found in the archive.
pub proof fn lemma_readers_agree_on_built(
    v: BuilderView,
    certificate_type: CertificateType,
    extended_use: Option<ExtendedUse>,
    crl_base: Option<Seq<char>>,
    cert: model::CertificateView,
    p12: Seq<u8>,
    der: Seq<u8>,
    key_der: Seq<u8>,
    crl_number: i64,
    metadata: Result<(Name, i64, i64), CertError>,
    parsed: Result<CA, CertError>,
)
    requires
        builder::is_valid(v),
        builder::is_built_leaf(v, certificate_type, extended_use, crl_base, cert),
        cert.data == model::CertDataView::Pkcs12(p12),
        !openssl_api::x509_matches_key((v.ca->0).1, v.key),
        openssl_api::pkcs12_finds(p12, v.password, Some(der)),
        der.len() <= u32::MAX,
        reading::found_metadata_result(Some(der), metadata),
        reading::parse_ca_result(der, key_der, DataFormat::DER, crl_number, parsed),
    ensures
        metadata matches Ok((name, created_on, valid_until)) && {
            &&& parsed matches Ok(ca)
            &&& ca@.name == name@
            &&& ca@.created_on == created_on
            &&& ca@.valid_until == valid_until
        },
{
    lemma_archive_holds(v, certificate_type, extended_use, crl_base, cert, p12, Some(der));
    lemma_found_metadata_is_that_built(
        v,
        certificate_type,
        extended_use,
        crl_base,
        cert,
        p12,
        Some(der),
        metadata,
    );
    lemma_subject_texts(v.name->0);
}

/// The two readers of certificates read the same texts and the same times in a certificate.
pub open spec fn is_read_alike(der: Seq<u8>, parsed: x509_api::ParsedCertificateView) -> bool {
    let cn = openssl_api::x509_subject_text(der, DnAttribute::CommonName);
    let start = openssl_api::x509_not_before(der, 0);
    let end = openssl_api::x509_not_after(der, 0);
    &&& first_reading(cn) == reading::first_text(parsed.common_names)
    &&& reading::unit_text(der) == reading::first_text(parsed.units)
    &&& start matches Some(difference) ==> openssl_api::seconds_of(difference) == parsed.not_before
    &&& end matches Some(difference) ==> openssl_api::seconds_of(difference) == parsed.not_after
}

/// The text of an attribute, if there is one that can be written in characters.
pub open spec fn first_reading(text: Option<Option<Seq<char>>>) -> Option<Seq<char>> {
    match text {
        Some(text) => text,
        None => None,
    }
}

/// `metadata_of` and `parse_ca` give the same name and the same validity of every certificate in
/// which `openssl` and `x509-parser` read the same texts and times, whoever made it. Without a text
/// for the common name, both of them refuse it.
pub proof fn lemma_readers_agree(
    der: Seq<u8>,
    key_der: Seq<u8>,
    crl_number: i64,
    content: x509_api::ParsedCertificateView,
    metadata: Result<(Name, i64, i64), CertError>,
    parsed: Result<CA, CertError>,
)
    requires
        x509_api::x509_parser_certificate(der) == Some(content),
        is_read_alike(der, content),
        reading::found_metadata_result(Some(der), metadata),
        reading::parse_ca_result(der, key_der, DataFormat::DER, crl_number, parsed),
    ensures
        metadata matches Ok((name, created_on, valid_until)) ==> {
            &&& parsed matches Ok(ca)
            &&& ca@.name == name@
            &&& ca@.created_on == created_on
            &&& ca@.valid_until == valid_until
        },
        parsed is Err ==> metadata is Err,
        reading::first_text(content.common_names) is None ==> metadata is Err && parsed is Err,
{
}

/// A certificate for servers and one for clients from the same builder differ in their type, in
/// their archive, and in whom the certificate says it is for, and in nothing else.
pub proof fn lemma_server_and_client_differ_in_use(
    v: BuilderView,
    crl_base: Option<Seq<char>>,
    server: model::CertificateView,
    client: model::CertificateView,
)
    requires
        builder::is_built_leaf(
            v,
            CertificateType::TLSServer,
            Some(ExtendedUse::ServerAuth),
            crl_base,
            server,
        ),
        builder::is_built_leaf(
            v,
            CertificateType::TLSClient,
            Some(ExtendedUse::ClientAuth),
            crl_base,
            client,
        ),
    ensures
        server == (model::CertificateView {
            certificate_type: CertificateType::TLSServer,
            data: server.data,
            ..client
        }),
        builder::leaf_params(v, Some(ExtendedUse::ServerAuth), crl_base) == (rcgen_api::ParamsView {
            extended_uses: seq![ExtendedUse::ServerAuth],
            ..builder::leaf_params(v, Some(ExtendedUse::ClientAuth), crl_base)
        }),
{
}

/// An archive that the password opens on no machine gives an error, whatever is asked of it.
pub proof fn lemma_unopened_archive_is_an_error(
    p12: Seq<u8>,
    password: Seq<char>,
    names: Result<Vec<String>, CertError>,
    serial: Result<Vec<u8>, CertError>,
    metadata: Result<(Name, i64, i64), CertError>,
)
    requires
        forall|found: Option<Seq<u8>>| !#[trigger]
            openssl_api::pkcs12_finds(p12, password, found),
        reading::dns_names_result(model::CertDataView::Pkcs12(p12), password, names),
        reading::archive_serial_result(p12, password, serial),
        reading::metadata_result(p12, password, metadata),
    ensures
        names is Err,
        serial is Err,
        metadata is Err,
{
}

/// The DNS names of a certificate in PEM that is not encrypted do not depend on the password.
pub proof fn lemma_pem_names_ignore_the_password(
    pem: Seq<u8>,
    password: Seq<char>,
    other_password: Seq<char>,
    r: Result<Vec<String>, CertError>,
    other: Result<Vec<String>, CertError>,
)
    requires
        !openssl_api::is_encrypted_pem(pem),
        reading::dns_names_result(model::CertDataView::Pem(pem), password, r),
        reading::dns_names_result(model::CertDataView::Pem(pem), other_password, other),
    ensures
        match r {
            Ok(names) => other matches Ok(other_names) && model::texts(other_names@)
                == model::texts(names@),
            Err(e) => e is OpenSsl && other is Err && other->Err_0 is OpenSsl,
        },
{
}

/// The texts that are kept where all are there are all.
proof fn lemma_kept_of_all(names: Seq<Seq<char>>)
    ensures
        reading::kept_texts(names.map_values(|n: Seq<char>| Some(n))) == names,
    decreases names.len(),
{
    let all = names.map_values(|n: Seq<char>| Some(n));
    if names.len() > 0 {
        lemma_kept_of_all(names.drop_last());
        assert(all.drop_last() =~= names.drop_last().map_values(|n: Seq<char>| Some(n)));
        assert(names.drop_last().push(names.last()) =~= names);
    } else {
        assert(reading::kept_texts(all) =~= names);
    }
}

/// Two texts of PEM that are not encrypted, one after the other, are not.
proof fn lemma_plain_texts_join(text: Seq<u8>, tail: Seq<u8>)
    requires
        openssl_api::is_plain_pem(text),
        openssl_api::is_plain_pem(tail),
    ensures
        openssl_api::is_plain_pem(text + tail),
{
    let both = text + tail;
    assert forall|i: int| 0 <= i <= both.len() - 10 implies (#[trigger] both.subrange(i, i + 10))
        != openssl_api::proc_type() by {
        let word = both.subrange(i, i + 10);
        let n = text.len() as int;
        if i + 10 <= n {
            assert(word =~= text.subrange(i, i + 10));
        } else if n <= i {
            assert(word =~= tail.subrange(i - n, i - n + 10));
        } else {
            assert(word[n - 1 - i] == 10);
        }
    }
}

/// What is read in the certificate and in the chain that `issue_cert_from_csr` gives: both readers
/// of PEM find the certificate.
proof fn lemma_issued_text_is_read(
    csr: Seq<u8>,
    ca: model::CAView,
    validity_days: u64,
    dns_names: Seq<Seq<char>>,
    cert_pem: Seq<u8>,
    chain_pem: Seq<u8>,
    serial: Seq<u8>,
) -> (der: Seq<u8>)
    requires
        acme::is_issued(csr, ca, validity_days, dns_names, cert_pem, chain_pem, serial),
    ensures
        acme::is_answer(csr, ca, validity_days, dns_names, serial, der),
        acme::issued_readings(der, serial, dns_names),
        openssl_api::x509_pem_der(cert_pem) == Some(der),
        openssl_api::x509_pem_der(chain_pem) == Some(der),
        !openssl_api::is_encrypted_pem(cert_pem),
        !openssl_api::is_encrypted_pem(chain_pem),
        x509_api::x509_parser_pem(cert_pem) == Some(der),
        x509_api::x509_parser_pem(chain_pem) == Some(der),
{
    let (der, ca_pem) = choose|der: Seq<u8>, ca_pem: Seq<u8>|
        {
            &&& #[trigger] openssl_api::is_pem_of(der, cert_pem)
            &&& #[trigger] openssl_api::is_pem_of(ca.cert, ca_pem)
            &&& acme::is_answer(csr, ca, validity_days, dns_names, serial, der)
            &&& acme::issued_readings(der, serial, dns_names)
            &&& chain_pem == cert_pem + ca_pem
            &&& openssl_api::is_minimal(serial) && serial.len() <= 8
        };
    lemma_plain_texts_join(cert_pem, ca_pem);
    let nothing = Seq::<u8>::empty();
    assert(cert_pem + nothing =~= cert_pem);
    assert(openssl_api::x509_pem_der(cert_pem + nothing) == openssl_api::x509_der(der));
    assert(openssl_api::x509_pem_der(cert_pem + ca_pem) == openssl_api::x509_der(der));
    assert(x509_api::x509_parser_pem(cert_pem + nothing) == openssl_api::x509_der(der));
    assert(x509_api::x509_parser_pem(cert_pem + ca_pem) == openssl_api::x509_der(der));
    der
}

/// The DNS names that `get_dns_names` reads out of the certificate or the chain that
/// `issue_cert_from_csr` gives are those for which it was issued, in order.
pub proof fn lemma_issued_dns_names_are_read_back(
    csr: Seq<u8>,
    ca: model::CAView,
    validity_days: u64,
    dns_names: Seq<Seq<char>>,
    issued: Result<(Vec<u8>, Vec<u8>, Vec<u8>), CertError>,
    pem: Seq<u8>,
    password: Seq<char>,
    r: Result<Vec<String>, CertError>,
)
    requires
        acme::issue_result(csr, ca, validity_days, dns_names, issued),
        issued matches Ok((cert_pem, chain_pem, _)) && (pem == cert_pem@ || pem == chain_pem@),
        reading::dns_names_result(model::CertDataView::Pem(pem), password, r),
    ensures
        r matches Ok(names) && model::texts(names@) == dns_names,
{
    let (cert_pem, chain_pem, serial) = issued->Ok_0;
    let der = lemma_issued_text_is_read(
        csr,
        ca,
        validity_days,
        dns_names,
        cert_pem@,
        chain_pem@,
        serial@,
    );
    lemma_kept_of_all(dns_names);
    if dns_names.len() == 0 {
        assert(dns_names =~= Seq::empty());
    }
}

/// The time can be read, and has a year of four digits.
pub open spec fn is_certificate_reading(reading: Option<(int, int)>) -> bool {
    reading matches Some(difference) && openssl_api::is_certificate_second(
        openssl_api::seconds_of(difference),
    )
}

/// The serial number that `issue_cert_from_csr` gives is the one that `extract_pem_serial_number`
/// reads out of the certificate or the chain, if its validity lies within years of four digits. The
/// authority is one that `build_ca` made or `parse_ca` read, or any other whose certificate
/// `x509-parser` can read. The number zero has no bytes in the one, and one byte in the other.
pub proof fn lemma_issued_serial_is_read_back(
    csr: Seq<u8>,
    ca: model::CAView,
    validity_days: u64,
    dns_names: Seq<Seq<char>>,
    issued: Result<(Vec<u8>, Vec<u8>, Vec<u8>), CertError>,
    pem: Seq<u8>,
    der: Seq<u8>,
    r: Result<Vec<u8>, CertError>,
)
    requires
        acme::issue_result(csr, ca, validity_days, dns_names, issued),
        issued matches Ok((cert_pem, chain_pem, _)) && (pem == cert_pem@ || pem == chain_pem@),
        openssl_api::x509_pem_der(pem) == Some(der),
        is_built_authority(ca.cert) || is_read_authority(ca.cert)
            || x509_api::x509_parser_certificate(ca.cert) is Some,
        is_certificate_reading(openssl_api::x509_not_before(der, 0)),
        is_certificate_reading(openssl_api::x509_not_after(der, 0)),
        reading::pem_serial_result(pem, r),
    ensures
        r matches Ok(serial) && serial@ == openssl_api::parser_bytes((issued->Ok_0).2@),
{
    let (cert_pem, chain_pem, serial) = issued->Ok_0;
    let read = lemma_issued_text_is_read(
        csr,
        ca,
        validity_days,
        dns_names,
        cert_pem@,
        chain_pem@,
        serial@,
    );
}

/// The chain that `issue_cert_from_csr` gives is the certificate and behind it the authority's, as
/// `get_tls_pem` writes it.
pub proof fn lemma_chain_ends_with_the_authority(
    csr: Seq<u8>,
    ca: model::CAView,
    validity_days: u64,
    dns_names: Seq<Seq<char>>,
    issued: Result<(Vec<u8>, Vec<u8>, Vec<u8>), CertError>,
    written: Result<Vec<u8>, CertError>,
)
    requires
        acme::issue_result(csr, ca, validity_days, dns_names, issued),
        issued is Ok,
        reading::tls_pem_result(ca.cert, written),
    ensures
        written matches Ok(ca_pem) && (issued->Ok_0).1@ == (issued->Ok_0).0@ + ca_pem@,
{
}

/// The common name of a certificate for a signing request is its first DNS name.
pub proof fn lemma_issued_common_name(
    csr: Seq<u8>,
    ca: model::CAView,
    validity_days: u64,
    dns_names: Seq<Seq<char>>,
    issued: Result<(Vec<u8>, Vec<u8>, Vec<u8>), CertError>,
)
    requires
        acme::issue_result(csr, ca, validity_days, dns_names, issued),
        issued is Ok,
        dns_names.len() > 0,
    ensures
        openssl_api::x509_pem_der((issued->Ok_0).0@) matches Some(der)
            && openssl_api::x509_subject_text(der, DnAttribute::CommonName) == Some(
            Some(dns_names[0]),
        ),
{
    let (cert_pem, chain_pem, serial) = issued->Ok_0;
    let der = lemma_issued_text_is_read(
        csr,
        ca,
        validity_days,
        dns_names,
        cert_pem@,
        chain_pem@,
        serial@,
    );
}

/// The time lies after 1970, and its milliseconds have 63 bits, so that they are counted as they
/// are.
pub open spec fn is_counted_in_millis(nanos: int) -> bool {
    0 <= nanos < 9_223_372_036_854_775_808_000_000
}

/// The seconds that go into a certificate for a signing request: those of the first reading of the
/// clock for its start, and those of the second and of so many days for its end. There is no
/// shortest validity: without days the certificate ends at the second reading.
pub proof fn lemma_issued_seconds(start: int, end: int, validity_days: u64)
    requires
        is_counted_in_millis(start),
        is_counted_in_millis(end + validity_days * 86_400_000_000_000),
    ensures
        clock::span_end_seconds(start, 0, TimespanUnit::Hour) == start / 1_000_000_000,
        clock::span_end_seconds(end, validity_days, TimespanUnit::Day) == end / 1_000_000_000
            + validity_days * 86_400,
{
    let late = clock::span_end(end, validity_days, TimespanUnit::Day);
    assert(late == end + validity_days * 86_400 * 1_000_000_000);
    assert(late / 1_000_000 / 1000 == late / 1_000_000_000);
    assert(start / 1_000_000 / 1000 == start / 1_000_000_000);
}

/// What is read back of the validity of a certificate is that it starts at the first time, and ends
/// so many days after the second.
pub open spec fn is_valid_between(der: Seq<u8>, start: int, end: int, validity_days: u64) -> bool {
    &&& openssl_api::is_time_reading(
        openssl_api::x509_not_before(der, 0),
        start / 1_000_000_000,
    )
    &&& openssl_api::is_time_reading(
        openssl_api::x509_not_after(der, 0),
        end / 1_000_000_000 + validity_days * 86_400,
    )
}

/// The certificate that `issue_cert_from_csr` gives starts at what the clock showed, and ends so
/// many days after what it showed then, if these times have 63 bits of milliseconds. The validity
/// of its authority does not count.
pub proof fn lemma_issued_certificate_lasts(
    csr: Seq<u8>,
    ca: model::CAView,
    validity_days: u64,
    dns_names: Seq<Seq<char>>,
    issued: Result<(Vec<u8>, Vec<u8>, Vec<u8>), CertError>,
)
    requires
        acme::issue_result(csr, ca, validity_days, dns_names, issued),
        issued is Ok,
    ensures
        openssl_api::x509_pem_der((issued->Ok_0).0@) matches Some(der) && exists|
            start: int,
            end: int,
        |
            {
                &&& #[trigger] clock::system_clock_shows(start)
                &&& #[trigger] clock::system_clock_shows(end)
                &&& is_counted_in_millis(start) && is_counted_in_millis(
                    end + validity_days * 86_400_000_000_000,
                ) ==> is_valid_between(der, start, end, validity_days)
            },
{
    let (cert_pem, chain_pem, serial) = issued->Ok_0;
    let der = lemma_issued_text_is_read(
        csr,
        ca,
        validity_days,
        dns_names,
        cert_pem@,
        chain_pem@,
        serial@,
    );
    let (start, end) = choose|start: int, end: int|
        {
            &&& #[trigger] clock::system_clock_shows(start)
            &&& #[trigger] clock::system_clock_shows(end)
            &&& acme::is_issued_at(
                openssl_api::csr_public_key(csr),
                ca.cert,
                ca.key,
                serial@,
                start,
                end,
                validity_days,
                dns_names,
                der,
            )
        };
    if is_counted_in_millis(start) && is_counted_in_millis(
        end + validity_days * 86_400_000_000_000,
    ) {
        lemma_issued_seconds(start, end, validity_days);
    }
    assert(clock::system_clock_shows(start) && clock::system_clock_shows(end));
}

/// Nothing but the public key of a request goes into the certificate: what answers a request
/// answers every other with the same key, and at the same times and with the same serial number
/// the same is put into the certificate.
pub proof fn lemma_only_the_key_of_a_request_counts(
    csr: Seq<u8>,
    other: Seq<u8>,
    ca: model::CAView,
    validity_days: u64,
    dns_names: Seq<Seq<char>>,
    serial: Seq<u8>,
    not_before: int,
    not_after: int,
    der: Seq<u8>,
)
    requires
        openssl_api::csr_public_key(csr) == openssl_api::csr_public_key(other),
    ensures
        acme::issued_fields(
            openssl_api::csr_public_key(csr),
            ca.cert,
            ca.key,
            serial,
            not_before,
            not_after,
            dns_names,
        ) == acme::issued_fields(
            openssl_api::csr_public_key(other),
            ca.cert,
            ca.key,
            serial,
            not_before,
            not_after,
            dns_names,
        ),
        acme::is_answer(csr, ca, validity_days, dns_names, serial, der) == acme::is_answer(
            other,
            ca,
            validity_days,
            dns_names,
            serial,
            der,
        ),
{
}

/// A validity lasts an hour at least, if its seconds can be counted in 63 bits.
pub proof fn lemma_validity_lasts_an_hour(now: int, duration: u64, unit: TimespanUnit)
    requires
        clock::validity_seconds(duration, unit) <= i64::MAX,
    ensures
        clock::validity_end(now, duration, unit) == now + clock::validity_seconds(duration, unit)
            * 1_000_000_000,
        clock::validity_seconds(duration, unit) >= 3600,
{
    assert(duration * clock::unit_hours(unit) >= 0) by (nonlinear_arith)
        requires
            duration >= 0,
            clock::unit_hours(unit) >= 0,
    ;
}

/// A renewed certificate is valid for fourteen days at least, counted from its renewal, and for
/// the whole days for which the earlier one was valid.
pub proof fn lemma_renewal_lasts(v: BuilderView, cert: model::CertificateView, now: int)
    requires
        builder::is_countable(cert),
        clock::is_date_time(now),
        builder::renewal_fits(cert, now),
    ensures
        builder::renewed(v, cert, now).not_after matches Some(end) && {
            &&& end >= now + 14 * 86_400 * 1_000_000_000
            &&& end == now + builder::renewal_days(cert.created_on as int, cert.valid_until as int)
                * 86_400 * 1_000_000_000
        },
{
    let days = builder::renewal_days(cert.created_on as int, cert.valid_until as int);
    assert(14 <= days <= i64::MAX / 86_400_000);
    assert(days as u64 == days);
    lemma_validity_lasts_an_hour(now, days as u64, TimespanUnit::Day);
}

}
