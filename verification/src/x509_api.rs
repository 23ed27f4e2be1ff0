//! What the crate asks of `x509-parser`, which reads certificates and PEM text.
use vstd::prelude::*;
use x509_parser::certificate::X509Certificate;
use x509_parser::error::PEMError;
use x509_parser::error::X509Error;
use x509_parser::pem::parse_x509_pem;
use x509_parser::prelude::FromDer;

use crate::clock;
use crate::model::DnAttribute;
use crate::openssl_api;

verus! {

/// An attribute of a distinguished name as it is encoded.
#[derive(Debug)]
pub struct NameAttribute {
    /// The content of the object identifier that says which attribute it is.
    pub oid: Vec<u8>,
    /// The number of the value's tag.
    pub tag: u32,
    /// The content of the value.
    pub value: Vec<u8>,
}

/// The value of a `NameAttribute`.
#[verifier::ext_equal]
pub struct NameAttributeView {
    pub oid: Seq<u8>,
    pub tag: u32,
    pub value: Seq<u8>,
}

impl View for NameAttribute {
    type V = NameAttributeView;

    open spec fn view(&self) -> NameAttributeView {
        NameAttributeView { oid: self.oid@, tag: self.tag, value: self.value@ }
    }
}

/// What the crate reads in a certificate.
#[derive(Debug)]
pub struct ParsedCertificate {
    /// The serial number, most significant byte first.
    pub serial: Vec<u8>,
    /// The subject's common names, no text for one that is not a string of characters.
    pub common_names: Vec<Option<String>>,
    /// The subject's organizational units, no text for one that is not a string of characters.
    pub units: Vec<Option<String>>,
    /// Seconds since 1970.
    pub not_before: i64,
    /// Seconds since 1970.
    pub not_after: i64,
}

/// The value of a `ParsedCertificate`.
#[verifier::ext_equal]
pub struct ParsedCertificateView {
    pub serial: Seq<u8>,
    pub common_names: Seq<Option<Seq<char>>>,
    pub units: Seq<Option<Seq<char>>>,
    pub not_before: i64,
    pub not_after: i64,
}

impl View for ParsedCertificate {
    type V = ParsedCertificateView;

    open spec fn view(&self) -> ParsedCertificateView {
        ParsedCertificateView {
            serial: self.serial@,
            common_names: openssl_api::optional_texts(self.common_names@),
            units: openssl_api::optional_texts(self.units@),
            not_before: self.not_before,
            not_after: self.not_after,
        }
    }
}

/// The content of the first block that `parse_x509_pem` finds in PEM text, if it finds one.
pub uninterp spec fn x509_parser_pem(text: Seq<u8>) -> Option<Seq<u8>>;

/// What `X509Certificate::from_der` reads, if it can.
pub uninterp spec fn x509_parser_certificate(der: Seq<u8>) -> Option<ParsedCertificateView>;

/// The attributes of the subject of the certificate that `X509Certificate::from_der` reads, if it
/// can, in order.
pub uninterp spec fn x509_parser_subject(der: Seq<u8>) -> Option<Seq<NameAttributeView>>;

/// The content of the identifier of an attribute.
pub open spec fn attribute_oid(attribute: DnAttribute) -> Seq<u8> {
    match attribute {
        DnAttribute::CommonName => seq![85u8, 4, 3],
        DnAttribute::OrganizationalUnit => seq![85u8, 4, 11],
    }
}

/// The number of the tag of a string in UTF-8.
pub const UTF8_STRING: u32 = 12;

/// The number of the tag of a printable string.
pub const PRINTABLE_STRING: u32 = 19;

/// The values of a list of attributes.
pub open spec fn attribute_views(attributes: Seq<NameAttribute>) -> Seq<NameAttributeView> {
    attributes.map_values(|a: NameAttribute| a@)
}

/// Seconds since 1970 that a date and time can stand for.
pub open spec fn is_unix_time(seconds: int) -> bool {
    clock::FIRST_SECOND <= seconds <= clock::LAST_SECOND
}

/// Calls `parse_x509_pem`, and takes the content of the block that it gives.
#[verifier::external_body]
pub(crate) fn parse_pem(text: &[u8]) -> (r: Result<Vec<u8>, x509_parser::nom::Err<PEMError>>)
    ensures
        r matches Ok(contents) ==> x509_parser_pem(text@) == Some(contents@),
        r is Err ==> x509_parser_pem(text@) is None,
{
    parse_x509_pem(text).map(|(_, pem)| pem.contents)
}

/// Calls `X509Certificate::from_der`, and on what it gives `to_bytes_be` for the serial number,
/// `iter_common_name` and `iter_organizational_unit` with `as_str`, and `timestamp` for both ends
/// of the validity, which are dates and times.
#[verifier::external_body]
pub(crate) fn parse_certificate(der: &[u8]) -> (r: Result<
    ParsedCertificate,
    x509_parser::nom::Err<X509Error>,
>)
    ensures
        r matches Ok(cert) ==> x509_parser_certificate(der@) == Some(cert@) && is_unix_time(
            cert.not_before as int,
        ) && is_unix_time(cert.not_after as int),
        r is Err ==> x509_parser_certificate(der@) is None,
{
    let (_, cert) = X509Certificate::from_der(der)?;
    let tbs = &cert.tbs_certificate;
    let names = tbs.subject.iter_common_name();
    let units = tbs.subject.iter_organizational_unit();
    Ok(ParsedCertificate {
        serial: tbs.serial.to_bytes_be(),
        common_names: names.map(|a| a.as_str().ok().map(String::from)).collect(),
        units: units.map(|a| a.as_str().ok().map(String::from)).collect(),
        not_before: tbs.validity.not_before.timestamp(),
        not_after: tbs.validity.not_after.timestamp(),
    })
}

/// Calls `X509Certificate::from_der`, and `iter_attributes` on the subject.
#[verifier::external_body]
pub(crate) fn parse_subject(der: &[u8]) -> (r: Result<
    Vec<NameAttribute>,
    x509_parser::nom::Err<X509Error>,
>)
    ensures
        r matches Ok(attributes) ==> x509_parser_subject(der@) == Some(
            attribute_views(attributes@),
        ),
        r is Err ==> x509_parser_subject(der@) is None,
{
    let (_, cert) = X509Certificate::from_der(der)?;
    let attributes = cert.tbs_certificate.subject.iter_attributes();
    Ok(attributes.map(|a| NameAttribute {
        oid: a.attr_type().as_bytes().to_vec(),
        tag: a.attr_value().tag().0,
        value: a.as_slice().to_vec(),
    }).collect())
}

}
