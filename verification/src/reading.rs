//! Reading certificates, authorities and archives.
use openssl::error::ErrorStack;
use vstd::prelude::*;

use crate::builder::UNSTORED;
use crate::clock;
use crate::clock::asn1_time_to_unix;
use crate::model;
use crate::model::from_openssl;
use crate::model::CAType;
use crate::model::CertData;
use crate::model::CertError;
use crate::model::Certificate;
use crate::model::DataFormat;
use crate::model::DnAttribute;
use crate::model::Name;
use crate::model::NameView;
use crate::model::CA;
use crate::openssl_api;
use crate::x509_api;
use crate::x509_api::ParsedCertificate;

verus! {

/// The texts that are there, in order.
pub open spec fn kept_texts(names: Seq<Option<Seq<char>>>) -> Seq<Seq<char>>
    decreases names.len(),
{
    if names.len() == 0 {
        Seq::empty()
    } else {
        match names.last() {
            Some(text) => kept_texts(names.drop_last()).push(text),
            None => kept_texts(names.drop_last()),
        }
    }
}

/// The alternative names of a subject in the shape in which a name speaks of them.
pub open spec fn san_value(san: Option<Vec<Option<String>>>) -> Option<Seq<Option<Seq<char>>>> {
    match san {
        Some(names) => Some(openssl_api::optional_texts(names@)),
        None => None,
    }
}

/// The DNS names of a certificate, which may have no alternative names.
pub open spec fn dns_texts(san: Option<Seq<Option<Seq<char>>>>) -> Seq<Seq<char>> {
    match san {
        Some(names) => kept_texts(names),
        None => Seq::empty(),
    }
}

/// What `get_tls_pem` gives back for an authority with this certificate: its PEM, if it can be read
/// and its length has 30 bits.
pub open spec fn tls_pem_result(cert: Seq<u8>, r: Result<Vec<u8>, CertError>) -> bool {
    match r {
        Ok(pem) => openssl_api::x509_readable(cert) && openssl_api::is_pem_of(cert, pem@),
        Err(e) => {
            &&& e is OpenSsl
            &&& openssl_api::x509_pem(cert) is None
            &&& !(openssl_api::x509_readable(cert) && cert.len()
                <= openssl_api::MAX_PEM_CERTIFICATE)
        },
    }
}

/// The certificate of an authority in PEM.
pub fn get_tls_pem(ca: &CA) -> (r: Result<Vec<u8>, CertError>)
    ensures
        tls_pem_result(ca.cert@, r),
{
    from_openssl(openssl_api::certificate_to_pem(ca.cert.as_slice()))
}

/// What `extract_pem_serial_number` gives back.
pub open spec fn pem_serial_result(pem: Seq<u8>, r: Result<Vec<u8>, CertError>) -> bool {
    match x509_api::x509_parser_pem(pem) {
        None => r is Err && r->Err_0 is PemParse,
        Some(der) => match x509_api::x509_parser_certificate(der) {
            None => r is Err && r->Err_0 is DerParse,
            Some(cert) => r matches Ok(serial) && serial@ == cert.serial,
        },
    }
}

/// The bytes of the serial number of a certificate in PEM.
pub fn extract_pem_serial_number(pem: &[u8]) -> (r: Result<Vec<u8>, CertError>)
    ensures
        pem_serial_result(pem@, r),
{
    let der: Vec<u8> = match x509_api::parse_pem(pem) {
        Ok(der) => der,
        Err(e) => return Err(CertError::PemParse(e)),
    };
    match x509_api::parse_certificate(der.as_slice()) {
        Ok(cert) => Ok(cert.serial),
        Err(e) => Err(CertError::DerParse(e)),
    }
}

/// The certificate of an archive, which has to hold one.
pub fn found_certificate(cert: Option<Vec<u8>>) -> (r: Result<Vec<u8>, CertError>)
    ensures
        match cert {
            Some(der) => r matches Ok(v) && v@ == der@,
            None => r is Err && r->Err_0 is NoArchiveCertificate,
        },
{
    match cert {
        Some(der) => Ok(der),
        None => Err(CertError::NoArchiveCertificate),
    }
}

/// The bytes of a certificate that may have been found.
pub open spec fn optional_bytes(found: Option<Vec<u8>>) -> Option<Seq<u8>> {
    match found {
        Some(der) => Some(der@),
        None => None,
    }
}

/// What `serial_of` gives back: the serial number of the certificate, if there is one and its
/// serial number can be read.
pub open spec fn found_serial_result(
    found: Option<Seq<u8>>,
    r: Result<Vec<u8>, CertError>,
) -> bool {
    match found {
        None => r is Err && r->Err_0 is NoArchiveCertificate,
        Some(der) => match openssl_api::x509_serial(der) {
            None => r is Err && r->Err_0 is OpenSsl,
            Some(serial) => r matches Ok(v) && v@ == serial && openssl_api::is_minimal(v@),
        },
    }
}

/// The bytes of the serial number of the certificate that was found in an archive.
pub fn serial_of(found: Option<Vec<u8>>) -> (r: Result<Vec<u8>, CertError>)
    ensures
        found_serial_result(optional_bytes(found), r),
{
    let cert: Vec<u8> = found_certificate(found)?;
    from_openssl(openssl_api::certificate_serial(cert.as_slice()))
}

/// A certificate that was found can be read.
pub open spec fn is_found_readable(found: Option<Seq<u8>>) -> bool {
    found matches Some(der) ==> openssl_api::x509_readable(der)
}

/// What `extract_pkcs12_serial_number` gives back: what `serial_of` makes of the certificate in the
/// archive, or an error of `openssl` if it is not opened.
pub open spec fn archive_serial_result(
    pkcs12: Seq<u8>,
    password: Seq<char>,
    r: Result<Vec<u8>, CertError>,
) -> bool {
    ||| r is Err && r->Err_0 is OpenSsl
    ||| exists|found: Option<Seq<u8>>| #[trigger]
        openssl_api::pkcs12_finds(pkcs12, password, found) && is_found_readable(found)
            && found_serial_result(found, r)
}

/// Makes sure that an archive can be read. It is not opened.
pub fn check_archive(pkcs12: &[u8]) -> (r: Result<(), CertError>)
    ensures
        match r {
            Ok(()) => openssl_api::pkcs12_readable(pkcs12@),
            Err(e) => e is OpenSsl && !openssl_api::pkcs12_readable(pkcs12@),
        },
{
    from_openssl(openssl_api::check_archive(pkcs12))
}

/// The bytes of the serial number of the certificate in an archive.
pub fn extract_pkcs12_serial_number(pkcs12: &[u8], password: &str) -> (r: Result<
    Vec<u8>,
    CertError,
>)
    requires
        openssl_api::no_nul(password@),
    ensures
        archive_serial_result(pkcs12@, password@, r),
        !openssl_api::pkcs12_readable(pkcs12@) ==> r is Err && r->Err_0 is OpenSsl,
{
    serial_of(from_openssl(openssl_api::archive_certificate(pkcs12, password))?)
}

/// The names that are there, in order.
pub fn kept_names(names: &Vec<Option<String>>) -> (kept: Vec<String>)
    ensures
        model::texts(kept@) == kept_texts(openssl_api::optional_texts(names@)),
{
    let ghost all = openssl_api::optional_texts(names@);
    let mut kept: Vec<String> = Vec::new();
    assert(model::texts(kept@) =~= kept_texts(all.take(0)));
    for i in 0..names.len()
        invariant
            all == openssl_api::optional_texts(names@),
            model::texts(kept@) == kept_texts(all.take(i as int)),
    {
        assert(all.take(i + 1).drop_last() =~= all.take(i as int));
        assert(all.take(i + 1).last() == model::optional_text(names@[i as int]));
        if let Some(name) = &names[i] {
            let ghost before = kept@;
            kept.push(name.clone());
            assert(model::texts(kept@) =~= model::texts(before).push(name@));
        }
    }
    assert(all.take(all.len() as int) =~= all);
    kept
}

/// The DNS names of a certificate in PEM. One without alternative names has none.
pub fn pem_names(san: &Option<Vec<Option<String>>>) -> (names: Vec<String>)
    ensures
        model::texts(names@) == dns_texts(san_value(*san)),
{
    match san {
        Some(names) => kept_names(names),
        None => {
            let names: Vec<String> = Vec::new();
            assert(model::texts(names@) =~= Seq::<Seq<char>>::empty());
            names
        },
    }
}

/// The DNS names of a certificate in an archive. One without alternative names is an error.
pub fn archive_names(san: &Option<Vec<Option<String>>>) -> (r: Result<Vec<String>, CertError>)
    ensures
        match san {
            Some(_) => r matches Ok(names) && model::texts(names@) == dns_texts(san_value(*san)),
            None => r is Err && r->Err_0 is NoArchiveSan,
        },
{
    match san {
        Some(names) => Ok(kept_names(names)),
        None => Err(CertError::NoArchiveSan),
    }
}

/// The certificate's data can be handed to `openssl`.
pub open spec fn is_readable(cert: Certificate) -> bool {
    match cert.data {
        CertData::Pem(bytes) => bytes@.len() <= i32::MAX,
        CertData::Pkcs12(_) => openssl_api::no_nul(cert.password@),
        CertData::SshBundle(_) => true,
    }
}

/// What `names_of` gives back: the DNS names of the certificate, if there is one, it can be read,
/// and it has alternative names.
pub open spec fn found_names_result(
    found: Option<Seq<u8>>,
    r: Result<Vec<String>, CertError>,
) -> bool {
    match found {
        None => r is Err && r->Err_0 is NoArchiveCertificate,
        Some(der) => if !openssl_api::x509_readable(der) {
            r is Err && r->Err_0 is OpenSsl
        } else if openssl_api::x509_san(der) is None {
            r is Err && r->Err_0 is NoArchiveSan
        } else {
            r matches Ok(names) && model::texts(names@) == dns_texts(openssl_api::x509_san(der))
        },
    }
}

/// The DNS names of the certificate that was found in an archive.
pub fn names_of(found: Option<Vec<u8>>) -> (r: Result<Vec<String>, CertError>)
    ensures
        found_names_result(optional_bytes(found), r),
{
    let inner: Vec<u8> = found_certificate(found)?;
    let san: Option<Vec<Option<String>>> = from_openssl(
        openssl_api::certificate_san(inner.as_slice()),
    )?;
    archive_names(&san)
}

/// What `get_dns_names` gives back for an archive: what `names_of` makes of the certificate that is
/// found in it, or an error of `openssl` if it is not opened.
pub open spec fn archive_names_result(
    p12: Seq<u8>,
    password: Seq<char>,
    r: Result<Vec<String>, CertError>,
) -> bool {
    ||| r is Err && r->Err_0 is OpenSsl
    ||| exists|found: Option<Seq<u8>>| #[trigger]
        openssl_api::pkcs12_finds(p12, password, found) && is_found_readable(found)
            && found_names_result(found, r)
}

/// What `get_dns_names` gives back. PEM that can be read has its DNS names, none if the
/// certificate has no alternative names; for encrypted PEM a password is asked for at the terminal,
/// so that no more is said than which error there can be. An SSH bundle has none.
pub open spec fn dns_names_result(
    data: model::CertDataView,
    password: Seq<char>,
    r: Result<Vec<String>, CertError>,
) -> bool {
    match data {
        model::CertDataView::Pem(bytes) => if openssl_api::is_encrypted_pem(bytes) {
            r matches Err(e) ==> e is OpenSsl
        } else {
            match openssl_api::x509_pem_der(bytes) {
                Some(der) => r matches Ok(names) && model::texts(names@) == dns_texts(
                    openssl_api::x509_san(der),
                ),
                None => r is Err && r->Err_0 is OpenSsl,
            }
        },
        model::CertDataView::Pkcs12(bytes) => archive_names_result(bytes, password, r),
        model::CertDataView::SshBundle(_) => r matches Ok(names) && names@.len() == 0,
    }
}

/// The DNS names that are stored in a certificate.
pub fn get_dns_names(cert: &Certificate) -> (r: Result<Vec<String>, CertError>)
    requires
        is_readable(*cert),
    ensures
        dns_names_result(cert.data@, cert.password@, r),
        cert.data matches CertData::Pkcs12(bytes) ==> !openssl_api::pkcs12_readable(bytes@)
            ==> r is Err && r->Err_0 is OpenSsl,
{
    match &cert.data {
        CertData::Pem(bytes) => {
            let der: Vec<u8> = from_openssl(openssl_api::certificate_from_pem(bytes.as_slice()))?;
            let san: Option<Vec<Option<String>>> = from_openssl(
                openssl_api::certificate_san(der.as_slice()),
            )?;
            Ok(pem_names(&san))
        },
        CertData::Pkcs12(bytes) => {
            let found: Option<Vec<u8>> = from_openssl(
                openssl_api::archive_certificate(bytes.as_slice(), cert.password.as_str()),
            )?;
            names_of(found)
        },
        CertData::SshBundle(_) => Ok(Vec::new()),
    }
}

/// The first text of an attribute, if there is one.
pub open spec fn first_text(texts: Seq<Option<Seq<char>>>) -> Option<Seq<char>> {
    if texts.len() > 0 {
        texts[0]
    } else {
        None
    }
}

/// The first of a list of texts, if it is there.
fn first_of(texts: &Vec<Option<String>>) -> (r: Option<String>)
    ensures
        model::optional_text(r) == first_text(openssl_api::optional_texts(texts@)),
{
    if texts.len() == 0 {
        return None;
    }
    assert(openssl_api::optional_texts(texts@)[0] == model::optional_text(texts@[0]));
    match &texts[0] {
        Some(text) => Some(text.clone()),
        None => None,
    }
}

/// The record of an authority whose certificate says this.
pub open spec fn ca_of(
    parsed: x509_api::ParsedCertificateView,
    cert_der: Seq<u8>,
    key_der: Seq<u8>,
    crl_number: i64,
) -> model::CAView {
    model::CAView {
        id: UNSTORED,
        name: NameView {
            cn: first_text(parsed.common_names)->0,
            ou: first_text(parsed.units),
        },
        created_on: (parsed.not_before * 1000) as i64,
        valid_until: (parsed.not_after * 1000) as i64,
        ca_type: CAType::TLS,
        cert: cert_der,
        key: key_der,
        crl_number,
    }
}

/// The record of an authority whose certificate says this. A certificate without a common name is
/// an error.
pub fn ca_from(
    parsed: &ParsedCertificate,
    cert_der: Vec<u8>,
    key_der: Vec<u8>,
    crl_number: i64,
) -> (r: Result<CA, CertError>)
    requires
        i64::MIN <= parsed.not_before * 1000 <= i64::MAX,
        i64::MIN <= parsed.not_after * 1000 <= i64::MAX,
    ensures
        match first_text(parsed@.common_names) {
            Some(_) => r matches Ok(ca) && ca@ == ca_of(parsed@, cert_der@, key_der@, crl_number),
            None => r is Err && r->Err_0 is NoCaCommonName,
        },
{
    let cn: String = match first_of(&parsed.common_names) {
        Some(cn) => cn,
        None => return Err(CertError::NoCaCommonName),
    };
    let ou: Option<String> = first_of(&parsed.units);
    Ok(
        CA {
            id: UNSTORED,
            name: Name { cn, ou },
            created_on: parsed.not_before * 1000,
            valid_until: parsed.not_after * 1000,
            ca_type: CAType::TLS,
            cert: cert_der,
            key: key_der,
            crl_number,
        },
    )
}

/// What `parse_ca` gives back for a certificate and a key in DER.
pub open spec fn parsed_der(
    cert_der: Seq<u8>,
    key_der: Seq<u8>,
    crl_number: i64,
    r: Result<CA, CertError>,
) -> bool {
    match x509_api::x509_parser_certificate(cert_der) {
        None => r is Err && r->Err_0 is CaDerParse,
        Some(parsed) => match first_text(parsed.common_names) {
            None => r is Err && r->Err_0 is NoCaCommonName,
            Some(_) => {
                &&& x509_api::is_unix_time(parsed.not_before as int)
                &&& x509_api::is_unix_time(parsed.not_after as int)
                &&& r matches Ok(ca) && ca@ == ca_of(parsed, cert_der, key_der, crl_number)
            },
        },
    }
}

/// What `parse_ca` gives back.
pub open spec fn parse_ca_result(
    cert_bytes: Seq<u8>,
    key_bytes: Seq<u8>,
    data_format: DataFormat,
    crl_number: i64,
    r: Result<CA, CertError>,
) -> bool {
    match data_format {
        DataFormat::DER => parsed_der(cert_bytes, key_bytes, crl_number, r),
        DataFormat::PEM => match (
            x509_api::x509_parser_pem(cert_bytes),
            x509_api::x509_parser_pem(key_bytes),
        ) {
            (None, _) => r is Err && r->Err_0 is CaCertPemParse,
            (Some(_), None) => r is Err && r->Err_0 is CaKeyPemParse,
            (Some(cert_der), Some(key_der)) => parsed_der(cert_der, key_der, crl_number, r),
        },
    }
}

/// The authority with a certificate and a private key in DER or PEM.
pub fn parse_ca(
    cert_bytes: &[u8],
    key_bytes: &[u8],
    data_format: DataFormat,
    crl_number: i64,
) -> (r: Result<CA, CertError>)
    ensures
        parse_ca_result(cert_bytes@, key_bytes@, data_format, crl_number, r),
{
    let (cert_der, key_der): (Vec<u8>, Vec<u8>) = match data_format {
        DataFormat::DER => (copied_bytes(cert_bytes), copied_bytes(key_bytes)),
        DataFormat::PEM => {
            let cert_der: Vec<u8> = match x509_api::parse_pem(cert_bytes) {
                Ok(contents) => contents,
                Err(e) => return Err(CertError::CaCertPemParse(e)),
            };
            let key_der: Vec<u8> = match x509_api::parse_pem(key_bytes) {
                Ok(contents) => contents,
                Err(e) => return Err(CertError::CaKeyPemParse(e)),
            };
            (cert_der, key_der)
        },
    };
    let parsed: ParsedCertificate = match x509_api::parse_certificate(cert_der.as_slice()) {
        Ok(parsed) => parsed,
        Err(e) => return Err(CertError::CaDerParse(e)),
    };
    ca_from(&parsed, cert_der, key_der, crl_number)
}

/// A copy of bytes.
fn copied_bytes(bytes: &[u8]) -> (v: Vec<u8>)
    ensures
        v@ == bytes@,
{
    let mut v: Vec<u8> = Vec::new();
    v.extend_from_slice(bytes);
    v
}

/// The common name out of the first entry for it. No entry is an error.
pub fn common_name_of(entry: Option<Result<String, ErrorStack>>) -> (r: Result<String, CertError>)
    ensures
        match entry {
            Some(Ok(text)) => r == Ok::<String, CertError>(text),
            Some(Err(e)) => r == Err::<String, CertError>(CertError::OpenSsl(e)),
            None => r is Err && r->Err_0 is NoCommonName,
        },
{
    match entry {
        Some(text) => from_openssl(text),
        None => Err(CertError::NoCommonName),
    }
}

/// The organizational unit out of the first entry for it. One that cannot be read counts as none.
pub fn unit_of(entry: Option<Result<String, ErrorStack>>) -> (r: Option<String>)
    ensures
        match entry {
            Some(Ok(text)) => r == Some(text),
            _ => r is None,
        },
{
    match entry {
        Some(Ok(text)) => Some(text),
        _ => None,
    }
}

/// What `metadata_of` gives back: the subject and both ends of the validity of the certificate, if
/// there is one and they can be read. An organizational unit that cannot be read counts as none.
pub open spec fn found_metadata_result(
    found: Option<Seq<u8>>,
    r: Result<(Name, i64, i64), CertError>,
) -> bool {
    match found {
        None => r is Err && r->Err_0 is NoMetadataCertificate,
        Some(der) => if !openssl_api::x509_readable(der) {
            r is Err && r->Err_0 is OpenSsl
        } else {
            match openssl_api::x509_subject_text(der, DnAttribute::CommonName) {
                None => r is Err && r->Err_0 is NoCommonName,
                Some(None) => r is Err && r->Err_0 is OpenSsl,
                Some(Some(cn)) => match (
                    openssl_api::x509_not_before(der, 0),
                    openssl_api::x509_not_after(der, 0),
                ) {
                    (Some(start), Some(end)) => {
                        &&& r matches Ok((name, created_on, valid_until))
                        &&& name@ == NameView { cn, ou: unit_text(der) }
                        &&& created_on == clock::difference_millis(start.0, start.1)
                        &&& valid_until == clock::difference_millis(end.0, end.1)
                    },
                    _ => r is Err && r->Err_0 is OpenSsl,
                },
            }
        },
    }
}

/// The text of the organizational unit of a certificate, if there is one and it can be read.
pub open spec fn unit_text(der: Seq<u8>) -> Option<Seq<char>> {
    match openssl_api::x509_subject_text(der, DnAttribute::OrganizationalUnit) {
        Some(text) => text,
        None => None,
    }
}

/// The subject of the certificate that was found in an archive, and the start and the end of its
/// validity in milliseconds since 1970.
pub fn metadata_of(found: Option<Vec<u8>>) -> (r: Result<(Name, i64, i64), CertError>)
    ensures
        found_metadata_result(optional_bytes(found), r),
{
    let cert: Vec<u8> = match found {
        Some(cert) => cert,
        None => return Err(CertError::NoMetadataCertificate),
    };
    let der: &[u8] = cert.as_slice();
    let cn: String = common_name_of(
        from_openssl(openssl_api::certificate_subject_text(der, DnAttribute::CommonName))?,
    )?;
    let ou: Option<String> = unit_of(
        from_openssl(openssl_api::certificate_subject_text(der, DnAttribute::OrganizationalUnit))?,
    );
    let start: (i32, i32) = from_openssl(openssl_api::certificate_not_before(der, 0))?;
    let created_on: i64 = asn1_time_to_unix(start.0, start.1);
    let end: (i32, i32) = from_openssl(openssl_api::certificate_not_after(der, 0))?;
    let valid_until: i64 = asn1_time_to_unix(end.0, end.1);
    Ok((Name { cn, ou }, created_on, valid_until))
}

/// What `parse_p12_metadata` gives back: what `metadata_of` makes of the certificate in the
/// archive, or an error of `openssl` if it is not opened.
pub open spec fn metadata_result(
    p12: Seq<u8>,
    password: Seq<char>,
    r: Result<(Name, i64, i64), CertError>,
) -> bool {
    ||| r is Err && r->Err_0 is OpenSsl
    ||| exists|found: Option<Seq<u8>>| #[trigger]
        openssl_api::pkcs12_finds(p12, password, found) && is_found_readable(found)
            && found_metadata_result(found, r)
}

/// The subject of the certificate in an archive, and the start and the end of its validity in
/// milliseconds since 1970.
pub fn parse_p12_metadata(p12_bytes: &[u8], password: &str) -> (r: Result<
    (Name, i64, i64),
    CertError,
>)
    requires
        openssl_api::no_nul(password@),
    ensures
        metadata_result(p12_bytes@, password@, r),
        !openssl_api::pkcs12_readable(p12_bytes@) ==> r is Err && r->Err_0 is OpenSsl,
{
    metadata_of(from_openssl(openssl_api::archive_certificate(p12_bytes, password))?)
}

}
