//! What the crate asks of `rcgen`, which makes keys and certificates.
use rcgen::string::Ia5String;
use rcgen::BasicConstraints;
use rcgen::CertificateParams;
use rcgen::CrlDistributionPoint;
use rcgen::DistinguishedName;
use rcgen::DnType;
use rcgen::ExtendedKeyUsagePurpose;
use rcgen::IsCa;
use rcgen::Issuer;
use rcgen::KeyPair;
use rcgen::KeyUsagePurpose;
use rcgen::SanType;
use rcgen::SerialNumber;
use rustls_pki_types::CertificateDer;
use time::OffsetDateTime;
use vstd::prelude::*;

use crate::clock;
use crate::model::DnAttribute;
use crate::openssl_api;
use crate::x509_api;

verus! {

/// The parameters of a certificate.
#[verifier::external_type_specification]
#[verifier::external_body]
pub struct ExCertificateParams(CertificateParams);

/// A distinguished name.
#[verifier::external_type_specification]
#[verifier::external_body]
pub struct ExDistinguishedName(DistinguishedName);

/// What a certificate says of being one of an authority.
#[derive(Debug, Clone, Copy, PartialEq, Eq, Structural)]
pub enum Authority {
    /// Nothing.
    NotStated,
    /// It is not one of an authority.
    No,
    /// It is one of an authority, whose chains may have any length.
    Unconstrained,
}

/// What a key may be used for.
#[derive(Debug, Clone, Copy, PartialEq, Eq, Structural)]
pub enum KeyUse {
    CertSign,
    CrlSign,
    DigitalSignature,
    KeyEncipherment,
}

/// Who a certificate is for.
#[derive(Debug, Clone, Copy, PartialEq, Eq, Structural)]
pub enum ExtendedUse {
    ClientAuth,
    ServerAuth,
}

/// An alternative name of a subject.
#[derive(Debug)]
pub enum San {
    Dns(String),
    Email(String),
}

/// The value of a `San`.
#[verifier::ext_equal]
pub enum SanView {
    Dns(Seq<char>),
    Email(Seq<char>),
}

impl View for San {
    type V = SanView;

    open spec fn view(&self) -> SanView {
        match self {
            San::Dns(s) => SanView::Dns(s@),
            San::Email(s) => SanView::Email(s@),
        }
    }
}

/// What the parameters of a certificate hold.
#[verifier::ext_equal]
pub ghost struct ParamsView {
    /// Nanoseconds since 1970.
    pub not_before: int,
    /// Nanoseconds since 1970.
    pub not_after: int,
    pub serial: Option<u64>,
    pub subject: Seq<(DnAttribute, Seq<char>)>,
    pub sans: Seq<SanView>,
    pub authority: Authority,
    pub key_uses: Seq<KeyUse>,
    pub extended_uses: Seq<ExtendedUse>,
    /// For each distribution point its addresses.
    pub crl_points: Seq<Seq<Seq<char>>>,
}

/// The parameters before anything is set: valid from 1975 to 4096.
pub open spec fn default_params() -> ParamsView {
    ParamsView {
        not_before: 157766400int * 1_000_000_000,
        not_after: 67090118400int * 1_000_000_000,
        serial: None,
        subject: seq![(DnAttribute::CommonName, "rcgen self signed cert"@)],
        sans: Seq::empty(),
        authority: Authority::NotStated,
        key_uses: Seq::empty(),
        extended_uses: Seq::empty(),
        crl_points: Seq::empty(),
    }
}

/// The text is ASCII.
pub open spec fn is_ascii(s: Seq<char>) -> bool {
    vstd::utf8::is_ascii_chars(s)
}

/// Each address of each distribution point is ASCII.
pub open spec fn points_ascii(points: Seq<Seq<Seq<char>>>) -> bool {
    forall|i: int, j: int|
        0 <= i < points.len() && 0 <= j < points[i].len() ==> is_ascii(#[trigger] points[i][j])
}

/// A certificate can be written with these parameters: its times have a year of four digits, and
/// its addresses are ASCII.
pub open spec fn is_writable(params: ParamsView) -> bool {
    &&& clock::is_certificate_time(params.not_before)
    &&& clock::is_certificate_time(params.not_after)
    &&& points_ascii(params.crl_points)
}

/// The texts of an attribute in a distinguished name.
pub open spec fn attribute_texts(
    subject: Seq<(DnAttribute, Seq<char>)>,
    attribute: DnAttribute,
) -> Seq<Option<Seq<char>>>
    decreases subject.len(),
{
    if subject.len() == 0 {
        Seq::empty()
    } else {
        let rest = attribute_texts(subject.drop_first(), attribute);
        if subject[0].0 == attribute {
            seq![Some(subject[0].1)] + rest
        } else {
            rest
        }
    }
}

/// The alternative names as `openssl` reads them back: nothing if there are none, and no text for
/// what is not a DNS name.
pub open spec fn san_reading(sans: Seq<SanView>) -> Option<Seq<Option<Seq<char>>>> {
    if sans.len() == 0 {
        None
    } else {
        Some(
            sans.map_values(
                |s: SanView|
                    match s {
                        SanView::Dns(n) => Some(n),
                        SanView::Email(_) => None,
                    },
            ),
        )
    }
}

/// The attributes of a subject as they are written, each text as a string in UTF-8.
pub open spec fn written_attributes(subject: Seq<(DnAttribute, Seq<char>)>) -> Seq<
    x509_api::NameAttributeView,
> {
    subject.map_values(
        |entry: (DnAttribute, Seq<char>)|
            x509_api::NameAttributeView {
                oid: x509_api::attribute_oid(entry.0),
                tag: x509_api::UTF8_STRING,
                value: vstd::utf8::encode_utf8(entry.1),
            },
    )
}

/// The text can be an entry of a name that `openssl` reads, which has a mebibyte at most: two of
/// them fit.
pub open spec fn is_entry_sized(text: Seq<char>) -> bool {
    openssl_api::utf8_len(text) <= 500_000
}

/// `openssl` reads a self-signed certificate that was written with these parameters: the subject
/// and the whole are not too long.
pub open spec fn is_openssl_sized(params: ParamsView, der: Seq<u8>) -> bool {
    &&& params.subject.len() <= 2
    &&& forall|i: int|
        0 <= i < params.subject.len() ==> is_entry_sized((#[trigger] params.subject[i]).1)
    &&& der.len() <= openssl_api::MAX_PEM_CERTIFICATE
}

/// What `openssl` and `x509-parser` read back from a certificate that was written with these
/// parameters. Of `x509-parser` this is said of a certificate within the 32 bits of length that it
/// reads.
pub open spec fn readings(params: ParamsView, der: Seq<u8>) -> bool {
    let names = attribute_texts(params.subject, DnAttribute::CommonName);
    let units = attribute_texts(params.subject, DnAttribute::OrganizationalUnit);
    &&& openssl_api::x509_der(der) matches Some(written) ==> written == der
    &&& openssl_api::x509_san(der) == san_reading(params.sans)
    &&& openssl_api::x509_subject_text(der, DnAttribute::CommonName) == if names.len() > 0 {
        Some(names[0])
    } else {
        None
    }
    &&& openssl_api::x509_subject_text(der, DnAttribute::OrganizationalUnit) == if units.len()
        > 0 {
        Some(units[0])
    } else {
        None
    }
    &&& openssl_api::x509_readable(der) ==> {
        &&& params.serial matches Some(serial) ==> {
            &&& openssl_api::x509_serial(der) is Some
            &&& openssl_api::is_minimal(openssl_api::x509_serial(der)->0)
            &&& openssl_api::big_endian(openssl_api::x509_serial(der)->0) == serial
        }
        &&& openssl_api::is_time_reading(
            openssl_api::x509_not_before(der, 0),
            clock::whole_seconds(params.not_before),
        )
        &&& openssl_api::is_time_reading(
            openssl_api::x509_not_after(der, 0),
            clock::whole_seconds(params.not_after),
        )
    }
    &&& der.len() <= u32::MAX ==> {
        &&& x509_api::x509_parser_certificate(der) is Some
        &&& x509_api::x509_parser_subject(der) == Some(written_attributes(params.subject))
        &&& x509_api::x509_parser_certificate(der)->0.common_names == names
        &&& x509_api::x509_parser_certificate(der)->0.units == units
        &&& x509_api::x509_parser_certificate(der)->0.not_before == clock::whole_seconds(
            params.not_before,
        )
        &&& x509_api::x509_parser_certificate(der)->0.not_after == clock::whole_seconds(
            params.not_after,
        )
    }
}

/// The attribute can be written into the issuer of a certificate: its identifier has two parts at
/// least, of which the first is below three, and a printable string has no question mark.
pub open spec fn is_issuer_attribute(attribute: x509_api::NameAttributeView) -> bool {
    &&& attribute.oid.len() > 0
    &&& attribute.oid[0] < 120
    &&& attribute.oid.len() == 1 ==> attribute.oid[0] != 0
    &&& attribute.tag == x509_api::PRINTABLE_STRING ==> !attribute.value.contains(63)
}

/// All of the attributes can be written into the issuer of a certificate.
pub open spec fn are_issuer_attributes(attributes: Seq<x509_api::NameAttributeView>) -> bool {
    forall|i: int| 0 <= i < attributes.len() ==> is_issuer_attribute(#[trigger] attributes[i])
}

/// The subject of the authority's certificate can be written as an issuer, if it can be read.
pub open spec fn is_issuer(ca_cert: Seq<u8>) -> bool {
    match x509_api::x509_parser_subject(ca_cert) {
        Some(attributes) => are_issuer_attributes(attributes),
        None => true,
    }
}

/// What stands before the private key in a PKCS#8 document for P-256: the lengths, the versions,
/// and an algorithm that is the identifier of elliptic curve keys and that of the curve.
pub open spec fn p256_header() -> Seq<u8> {
    seq![
        0x30u8, 0x81, 0x87, 0x02, 0x01, 0x00, 0x30, 0x13, 0x06, 0x07, 0x2a, 0x86, 0x48, 0xce, 0x3d,
        0x02, 0x01, 0x06, 0x08, 0x2a, 0x86, 0x48, 0xce, 0x3d, 0x03, 0x01, 0x07, 0x04, 0x6d, 0x30,
        0x6b, 0x02, 0x01, 0x01, 0x04, 0x20,
    ]
}

/// What stands between the private and the public key in a PKCS#8 document for P-256.
pub open spec fn p256_middle() -> Seq<u8> {
    seq![0xa1u8, 0x44, 0x03, 0x42, 0x00]
}

/// A PKCS#8 document for P-256: 32 bytes of private key, and behind them 65 bytes of public key,
/// a point with both coordinates.
pub open spec fn is_p256_document(key: Seq<u8>) -> bool {
    &&& key.len() == 138
    &&& key.subrange(0, 36) == p256_header()
    &&& key.subrange(68, 73) == p256_middle()
    &&& key[73] == 4
}

/// What the parameters of a certificate hold, where they hold nothing else.
pub uninterp spec fn params_view(params: CertificateParams) -> ParamsView;

/// The attributes and texts in a distinguished name, in order, where it holds no other.
pub uninterp spec fn name_view(name: DistinguishedName) -> Seq<(DnAttribute, Seq<char>)>;

/// The certificate is what `self_signed` makes of the parameters and a private key. A signature
/// may hold random bits, so several certificates can be.
pub uninterp spec fn rcgen_self_signed(params: ParamsView, key: Seq<u8>, der: Seq<u8>) -> bool;

/// The certificate is what `signed_by` makes of the parameters for a private key, signed by an
/// authority with this certificate and this private key. A signature may hold random bits, so
/// several certificates can be.
pub uninterp spec fn rcgen_signed(
    params: ParamsView,
    key: Seq<u8>,
    ca_cert: Seq<u8>,
    ca_key: Seq<u8>,
    der: Seq<u8>,
) -> bool;

/// Calls `rand::random`. Which number it is is left open.
#[verifier::external_body]
pub(crate) fn random_u64() -> u64 {
    rand::random::<u64>()
}

/// Calls `KeyPair::generate_for` for ECDSA with P-256 and SHA-256, and `serialize_der`. It gives a
/// PKCS#8 document with a private key on that curve and its public key. Which key it is is left
/// open.
#[verifier::external_body]
pub(crate) fn generate_key() -> (r: Result<Vec<u8>, rcgen::Error>)
    ensures
        r matches Ok(key) ==> is_p256_document(key@),
{
    Ok(KeyPair::generate_for(&rcgen::PKCS_ECDSA_P256_SHA256)?.serialize_der())
}

/// Calls `Ia5String::try_from`, which takes ASCII and nothing else.
#[verifier::external_body]
pub(crate) fn check_ia5(text: &str) -> (r: Result<(), rcgen::Error>)
    ensures
        r is Ok <==> is_ascii(text@),
{
    Ia5String::try_from(text).map(|_ia5| ())
}

/// Calls `CertificateParams::default`.
#[verifier::external_body]
pub(crate) fn params_default() -> (params: CertificateParams)
    ensures
        params_view(params) == default_params(),
{
    CertificateParams::default()
}

/// Sets the field `not_before` to what `OffsetDateTime::from_unix_timestamp_nanos` makes of the
/// time, which it refuses if it is no date and time.
#[verifier::external_body]
pub(crate) fn set_not_before(params: &mut CertificateParams, nanos: i128)
    requires
        clock::is_date_time(nanos as int),
    ensures
        params_view(*final(params)) == (ParamsView {
            not_before: nanos as int,
            ..params_view(*old(params))
        }),
{
    params.not_before = OffsetDateTime::from_unix_timestamp_nanos(nanos).unwrap();
}

/// Sets the field `not_after` to what `OffsetDateTime::from_unix_timestamp_nanos` makes of the
/// time, which it refuses if it is no date and time.
#[verifier::external_body]
pub(crate) fn set_not_after(params: &mut CertificateParams, nanos: i128)
    requires
        clock::is_date_time(nanos as int),
    ensures
        params_view(*final(params)) == (ParamsView {
            not_after: nanos as int,
            ..params_view(*old(params))
        }),
{
    params.not_after = OffsetDateTime::from_unix_timestamp_nanos(nanos).unwrap();
}

/// Sets the field `serial_number` to what `SerialNumber::from` makes of the number.
#[verifier::external_body]
pub(crate) fn set_serial(params: &mut CertificateParams, serial: u64)
    ensures
        params_view(*final(params)) == (ParamsView {
            serial: Some(serial),
            ..params_view(*old(params))
        }),
{
    params.serial_number = Some(SerialNumber::from(serial));
}

/// Calls `DistinguishedName::new`.
#[verifier::external_body]
pub(crate) fn name_new() -> (name: DistinguishedName)
    ensures
        name_view(name) == Seq::<(DnAttribute, Seq<char>)>::empty(),
{
    DistinguishedName::new()
}

/// Calls `DistinguishedName::push`, which replaces the text of an attribute that is there. Here
/// the attribute is not.
#[verifier::external_body]
pub(crate) fn name_push(name: &mut DistinguishedName, attribute: DnAttribute, text: &str)
    requires
        forall|i: int|
            0 <= i < name_view(*old(name)).len() ==> (#[trigger] name_view(*old(name))[i]).0
                != attribute,
    ensures
        name_view(*final(name)) == name_view(*old(name)).push((attribute, text@)),
{
    let dn_type = match attribute {
        DnAttribute::CommonName => DnType::CommonName,
        DnAttribute::OrganizationalUnit => DnType::OrganizationalUnitName,
    };
    name.push(dn_type, text);
}

/// Sets the field `distinguished_name`, the subject.
#[verifier::external_body]
pub(crate) fn set_subject(params: &mut CertificateParams, name: DistinguishedName)
    ensures
        params_view(*final(params)) == (ParamsView {
            subject: name_view(name),
            ..params_view(*old(params))
        }),
{
    params.distinguished_name = name;
}

/// Adds a `SanType::DnsName` to the field `subject_alt_names`, through `Ia5String::try_from`, which
/// takes ASCII and nothing else.
#[verifier::external_body]
pub(crate) fn push_dns(params: &mut CertificateParams, text: &str) -> (r: Result<(), rcgen::Error>)
    ensures
        r is Ok <==> is_ascii(text@),
        r is Ok ==> params_view(*final(params)) == (ParamsView {
            sans: params_view(*old(params)).sans.push(SanView::Dns(text@)),
            ..params_view(*old(params))
        }),
{
    params.subject_alt_names.push(SanType::DnsName(Ia5String::try_from(text)?));
    Ok(())
}

/// Adds a `SanType::Rfc822Name` to the field `subject_alt_names`, through `Ia5String::try_from`,
/// which takes ASCII and nothing else.
#[verifier::external_body]
pub(crate) fn push_email(params: &mut CertificateParams, text: &str) -> (r: Result<
    (),
    rcgen::Error,
>)
    ensures
        r is Ok <==> is_ascii(text@),
        r is Ok ==> params_view(*final(params)) == (ParamsView {
            sans: params_view(*old(params)).sans.push(SanView::Email(text@)),
            ..params_view(*old(params))
        }),
{
    params.subject_alt_names.push(SanType::Rfc822Name(Ia5String::try_from(text)?));
    Ok(())
}

/// Sets the field `is_ca`, what the certificate says of being one of an authority.
#[verifier::external_body]
pub(crate) fn set_authority(params: &mut CertificateParams, authority: Authority)
    ensures
        params_view(*final(params)) == (ParamsView { authority, ..params_view(*old(params)) }),
{
    params.is_ca = match authority {
        Authority::NotStated => IsCa::NoCa,
        Authority::No => IsCa::ExplicitNoCa,
        Authority::Unconstrained => IsCa::Ca(BasicConstraints::Unconstrained),
    };
}

/// Adds a use of the key to the field `key_usages`.
#[verifier::external_body]
pub(crate) fn push_key_use(params: &mut CertificateParams, key_use: KeyUse)
    ensures
        params_view(*final(params)) == (ParamsView {
            key_uses: params_view(*old(params)).key_uses.push(key_use),
            ..params_view(*old(params))
        }),
{
    params.key_usages.push(match key_use {
        KeyUse::CertSign => KeyUsagePurpose::KeyCertSign,
        KeyUse::CrlSign => KeyUsagePurpose::CrlSign,
        KeyUse::DigitalSignature => KeyUsagePurpose::DigitalSignature,
        KeyUse::KeyEncipherment => KeyUsagePurpose::KeyEncipherment,
    });
}

/// Adds to the field `extended_key_usages` who the certificate is for.
#[verifier::external_body]
pub(crate) fn push_extended_use(params: &mut CertificateParams, extended_use: ExtendedUse)
    ensures
        params_view(*final(params)) == (ParamsView {
            extended_uses: params_view(*old(params)).extended_uses.push(extended_use),
            ..params_view(*old(params))
        }),
{
    params.extended_key_usages.push(match extended_use {
        ExtendedUse::ClientAuth => ExtendedKeyUsagePurpose::ClientAuth,
        ExtendedUse::ServerAuth => ExtendedKeyUsagePurpose::ServerAuth,
    });
}

/// Adds a `CrlDistributionPoint` with one address to the field `crl_distribution_points`.
#[verifier::external_body]
pub(crate) fn push_crl_point(params: &mut CertificateParams, uri: String)
    ensures
        params_view(*final(params)) == (ParamsView {
            crl_points: params_view(*old(params)).crl_points.push(seq![uri@]),
            ..params_view(*old(params))
        }),
{
    params.crl_distribution_points.push(CrlDistributionPoint { uris: vec![uri] });
}

/// Calls `CertificateParams::self_signed` with the key that `KeyPair::try_from` reads. Writing the
/// certificate panics on a time without a year of four digits and on an address that is not ASCII.
#[verifier::external_body]
pub(crate) fn self_signed(params: &CertificateParams, key: &[u8]) -> (r: Result<
    Vec<u8>,
    rcgen::Error,
>)
    requires
        is_writable(params_view(*params)),
    ensures
        r matches Ok(der) ==> {
            &&& rcgen_self_signed(params_view(*params), key@, der@)
            &&& readings(params_view(*params), der@)
            &&& is_openssl_sized(params_view(*params), der@) ==> openssl_api::x509_readable(der@)
        },
{
    Ok(params.self_signed(&KeyPair::try_from(key)?)?.der().to_vec())
}

/// Calls `KeyPair::try_from` for an authority's key and `Issuer::from_ca_cert_der` for its
/// certificate, to see whether they can be read. Which keys can be depends on the cryptographic
/// library in use, so that nothing is said of when they are.
#[verifier::external_body]
pub(crate) fn check_authority(ca_cert: &[u8], ca_key: &[u8]) -> Result<(), rcgen::Error> {
    let ca_key_pair = KeyPair::try_from(ca_key)?;
    Issuer::from_ca_cert_der(&CertificateDer::from(ca_cert), ca_key_pair).map(|_issuer| ())
}

/// Calls `KeyPair::try_from` for the authority's key, `Issuer::from_ca_cert_der` for its
/// certificate, and `CertificateParams::signed_by` with the key that `KeyPair::try_from` reads.
/// Writing the certificate panics on a time without a year of four digits, on an address that is
/// not ASCII, and on an attribute of the authority's subject that cannot be written as an issuer.
#[verifier::external_body]
pub(crate) fn signed_by(
    params: &CertificateParams,
    key: &[u8],
    ca_cert: &[u8],
    ca_key: &[u8],
) -> (r: Result<Vec<u8>, rcgen::Error>)
    requires
        is_writable(params_view(*params)),
        is_issuer(ca_cert@),
    ensures
        r matches Ok(der) ==> {
            &&& rcgen_signed(params_view(*params), key@, ca_cert@, ca_key@, der@)
            &&& readings(params_view(*params), der@)
        },
{
    let ca_key_pair = KeyPair::try_from(ca_key)?;
    let issuer = Issuer::from_ca_cert_der(&CertificateDer::from(ca_cert), ca_key_pair)?;
    Ok(params.signed_by(&KeyPair::try_from(key)?, &issuer)?.der().to_vec())
}

}
