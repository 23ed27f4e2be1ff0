//! What the crate asks of `openssl`. Certificates, keys, requests and archives go in and out as
//! DER.
//!
//! A name below stands for what an operation gives back. Memory left aside, reading a certificate,
//! a request or an archive depends on the bytes alone, so that for these the names say when it
//! succeeds, too. Which keys and signatures can be worked with, and which archives can be opened,
//! depends on the machine, on the algorithms that its `openssl` offers. There a name holds of what
//! comes out on some machine, so that a success shows that it holds, and nothing is said of when an
//! operation succeeds or of what a failure means.
use openssl::asn1::Asn1Time;
use openssl::bn::BigNum;
use openssl::bn::MsbOption;
use openssl::error::ErrorStack;
use openssl::hash::MessageDigest;
use openssl::nid::Nid;
use openssl::pkcs12::Pkcs12;
use openssl::pkey::PKey;
use openssl::stack::Stack;
use openssl::x509::extension::AuthorityKeyIdentifier;
use openssl::x509::extension::BasicConstraints;
use openssl::x509::extension::ExtendedKeyUsage;
use openssl::x509::extension::KeyUsage;
use openssl::x509::extension::SubjectAlternativeName;
use openssl::x509::extension::SubjectKeyIdentifier;
use openssl::x509::X509Builder;
use openssl::x509::X509NameBuilder;
use openssl::x509::X509Req;
use openssl::x509::X509;
use vstd::prelude::*;

use crate::clock;
use crate::model;
use crate::model::DnAttribute;
use crate::x509_api;

verus! {

/// The builder of a certificate.
#[verifier::external_type_specification]
#[verifier::external_body]
pub struct ExX509Builder(X509Builder);

/// The builder of a distinguished name.
#[verifier::external_type_specification]
#[verifier::external_body]
pub struct ExX509NameBuilder(X509NameBuilder);

/// The list of alternative names of a subject.
#[verifier::external_type_specification]
#[verifier::external_body]
pub struct ExSubjectAlternativeName(SubjectAlternativeName);

/// An extension in the builder of a certificate.
#[verifier::ext_equal]
pub ghost enum Extension {
    /// The subject's alternative names, all of them DNS names.
    SubjectAltName(Seq<Seq<char>>),
    /// The certificate is for servers.
    ServerAuth,
    /// The certificate is not one of an authority.
    NotAuthority,
    /// The key signs and enciphers keys.
    SignAndEncipher,
    /// The identifier of the certificate's own key.
    SubjectKeyIdentifier,
    /// The identifier of the key in this certificate of the authority.
    AuthorityKeyIdentifier(Seq<u8>),
}

/// What the builder of a certificate holds.
#[verifier::ext_equal]
pub ghost struct X509Fields {
    /// The version, counted from zero.
    pub version: Option<int>,
    /// The serial number, most significant byte first.
    pub serial: Option<Seq<u8>>,
    /// Seconds since 1970.
    pub not_before: Option<int>,
    /// Seconds since 1970.
    pub not_after: Option<int>,
    /// The public key in DER.
    pub public_key: Option<Seq<u8>>,
    /// The fields of the subject and their texts.
    pub subject: Option<Seq<(Seq<char>, Seq<char>)>>,
    /// The certificate whose subject is the issuer.
    pub issuer: Option<Seq<u8>>,
    pub extensions: Seq<Extension>,
    /// The private key that signed all of the above, with SHA-256.
    pub signer: Option<Seq<u8>>,
}

/// A builder into which nothing has been put.
pub open spec fn no_fields() -> X509Fields {
    X509Fields {
        version: None,
        serial: None,
        not_before: None,
        not_after: None,
        public_key: None,
        subject: None,
        issuer: None,
        extensions: Seq::empty(),
        signer: None,
    }
}

/// The builder's fields with one more extension.
pub open spec fn with_extension(fields: X509Fields, extension: Extension) -> X509Fields {
    X509Fields { extensions: fields.extensions.push(extension), ..fields }
}

/// The number of bytes of a text in UTF-8.
pub open spec fn utf8_len(s: Seq<char>) -> nat {
    vstd::utf8::encode_utf8(s).len()
}

/// A text fits into a string of `openssl`, whose length has 31 bits and room for an end mark.
pub open spec fn fits_asn1(s: Seq<char>) -> bool {
    utf8_len(s) < i32::MAX - 1
}

/// A text has no NUL in it and so can be handed over as a C string.
pub open spec fn no_nul(s: Seq<char>) -> bool {
    forall|i: int| 0 <= i < s.len() ==> s[i] != '\0'
}

/// Bytes of a number without a leading zero.
pub open spec fn is_minimal(bytes: Seq<u8>) -> bool {
    bytes.len() > 0 ==> bytes[0] != 0
}

/// The seconds that days and seconds make.
pub open spec fn seconds_of(difference: (int, int)) -> int {
    difference.0 * 86400 + difference.1
}

/// What is read back of a time: the time, and that always if it has a year of four digits.
pub open spec fn is_time_reading(reading: Option<(int, int)>, seconds: int) -> bool {
    &&& is_certificate_second(seconds) ==> reading is Some
    &&& reading matches Some(difference) ==> seconds_of(difference) == seconds
}

/// The number that bytes stand for, most significant byte first.
pub open spec fn big_endian(bytes: Seq<u8>) -> nat
    decreases bytes.len(),
{
    if bytes.len() == 0 {
        0
    } else {
        big_endian(bytes.drop_last()) * 256 + bytes.last() as nat
    }
}

/// Bytes of a number without a leading zero, as `x509-parser` gives them: zero is one byte.
pub open spec fn parser_bytes(bytes: Seq<u8>) -> Seq<u8> {
    if bytes.len() == 0 {
        seq![0u8]
    } else {
        bytes
    }
}

/// The text of the first entry of a field, if there is one, in the shape in which it is read back.
pub open spec fn first_entry(
    entries: Seq<(Seq<char>, Seq<char>)>,
    field: Seq<char>,
) -> Option<Option<Seq<char>>>
    decreases entries.len(),
{
    if entries.len() == 0 {
        None
    } else if entries[0].0 == field {
        Some(Some(entries[0].1))
    } else {
        first_entry(entries.drop_first(), field)
    }
}

/// Seconds since 1970 with a year of four digits.
pub open spec fn is_certificate_second(seconds: int) -> bool {
    clock::FIRST_CERTIFICATE_SECOND <= seconds <= clock::LAST_SECOND
}

/// The DNS names that the extensions give, in the shape in which they are read back: nothing
/// without an extension for them.
pub open spec fn extension_names(extensions: Seq<Extension>) -> Option<Seq<Option<Seq<char>>>>
    decreases extensions.len(),
{
    if extensions.len() == 0 {
        None
    } else {
        match extensions[0] {
            Extension::SubjectAltName(names) => Some(
                names.map_values(|n: Seq<char>| Some(n)),
            ),
            _ => extension_names(extensions.drop_first()),
        }
    }
}

/// Among the extensions are alternative names once at most.
pub open spec fn has_single_names(extensions: Seq<Extension>) -> bool {
    forall|i: int, j: int|
        #![trigger extensions[i], extensions[j]]
        0 <= i < extensions.len() && 0 <= j < extensions.len() && extensions[i] is SubjectAltName
            && extensions[j] is SubjectAltName ==> i == j
}

/// The certificate has extensions, is signed, its issuer was copied out of a certificate that can
/// be read, and nothing is missing in it.
pub open spec fn is_complete(fields: X509Fields) -> bool {
    &&& fields.version == Some(2int)
    &&& fields.serial is Some
    &&& fields.not_before is Some
    &&& fields.not_after is Some
    &&& fields.public_key is Some
    &&& fields.subject is Some
    &&& fields.issuer matches Some(issuer) && x509_readable(issuer)
    &&& has_single_names(fields.extensions)
    &&& fields.signer is Some
}

/// `x509-parser` reads a certificate with this issuer and these ends of the validity: it reads the
/// authority's certificate, out of which the issuer is copied, the times have a year of four
/// digits, and the certificate is within the 32 bits of length that it reads.
pub open spec fn parser_reads(
    issuer: Seq<u8>,
    not_before: int,
    not_after: int,
    der: Seq<u8>,
) -> bool {
    &&& x509_api::x509_parser_certificate(issuer) is Some
    &&& is_certificate_second(not_before)
    &&& is_certificate_second(not_after)
    &&& der.len() <= u32::MAX
}

/// What is read back from a certificate with these fields: the serial number, the validity, the
/// subject and the DNS names, and the serial number by `x509-parser` too, where it reads the
/// certificate.
pub open spec fn is_read_back(fields: X509Fields, der: Seq<u8>) -> bool {
    let serial = fields.serial->0;
    let start = fields.not_before->0;
    let end = fields.not_after->0;
    let subject = fields.subject->0;
    let parsed = x509_api::x509_parser_certificate(der);
    &&& x509_readable(der)
    &&& x509_der(der) == Some(der)
    &&& x509_san(der) == extension_names(fields.extensions)
    &&& is_time_reading(x509_not_before(der, 0), start)
    &&& is_time_reading(x509_not_after(der, 0), end)
    &&& x509_subject_text(der, DnAttribute::CommonName) == first_entry(subject, "CN"@)
    &&& x509_subject_text(der, DnAttribute::OrganizationalUnit) == first_entry(subject, "OU"@)
    &&& is_minimal(serial) ==> x509_serial(der) == Some(serial)
    &&& is_minimal(serial) && parser_reads(fields.issuer->0, start, end, der) ==> parsed is Some
        && parsed->0.serial == parser_bytes(serial)
}

/// Whether `X509Req::from_der` reads a signing request in the bytes.
pub uninterp spec fn csr_readable(csr: Seq<u8>) -> bool;

/// Reads the public key out of a signing request, through `X509Req::public_key`.
pub uninterp spec fn csr_public_key(csr: Seq<u8>) -> Seq<u8>;

/// `X509Req::verify` with the request's own key says on some machine that the signature of the
/// request verifies, or that it does not. A machine may refuse a kind of signature as if it did not
/// verify, so that both can be said of a request.
pub uninterp spec fn csr_verdict(csr: Seq<u8>, verified: bool) -> bool;

/// Whether the bytes hold a private key that `PKey::private_key_from_der` reads on some machine.
pub uninterp spec fn private_key_readable(key: Seq<u8>) -> bool;

/// Whether `X509::from_der` reads a certificate in the bytes.
pub uninterp spec fn x509_readable(der: Seq<u8>) -> bool;

/// The certificate that `X509::from_der` reads, written again by `to_der`, if both succeed.
pub uninterp spec fn x509_der(der: Seq<u8>) -> Option<Seq<u8>>;

/// The certificate in PEM, as `to_pem` writes it, if it does.
pub uninterp spec fn x509_pem(der: Seq<u8>) -> Option<Seq<u8>>;

/// The certificate that `X509::from_pem` reads in a text that is not encrypted, written by
/// `to_der`, if both succeed.
pub uninterp spec fn x509_pem_der(pem: Seq<u8>) -> Option<Seq<u8>>;

/// The certificate's serial number, most significant byte first, without leading zeros, if it can
/// be read.
pub uninterp spec fn x509_serial(der: Seq<u8>) -> Option<Seq<u8>>;

/// The alternative names of the certificate's subject, as `subject_alt_names` lists them and
/// `dnsname` reads each: no text where the name is not a DNS name.
pub uninterp spec fn x509_san(der: Seq<u8>) -> Option<Seq<Option<Seq<char>>>>;

/// The first entry of an attribute in the certificate's subject, if there is one, and its text, if
/// it can be written in characters.
pub uninterp spec fn x509_subject_text(der: Seq<u8>, attribute: DnAttribute) -> Option<
    Option<Seq<char>>,
>;

/// How long the certificate's validity starts after the time `from`, in days and seconds, if its
/// start can be read.
pub uninterp spec fn x509_not_before(der: Seq<u8>, from: int) -> Option<(int, int)>;

/// How long the certificate's validity ends after the time `from`, in days and seconds, if its end
/// can be read.
pub uninterp spec fn x509_not_after(der: Seq<u8>, from: int) -> Option<(int, int)>;

/// Whether `Pkcs12::from_der` reads an archive in the bytes.
pub uninterp spec fn pkcs12_readable(p12: Seq<u8>) -> bool;

/// `parse2` opens the archive with the password on some machine, and finds this certificate in it,
/// written by `to_der`, or none. Where several certificates belong to the key in the archive, which
/// of them is found may differ.
pub uninterp spec fn pkcs12_finds(
    p12: Seq<u8>,
    password: Seq<char>,
    found: Option<Seq<u8>>,
) -> bool;

/// Whether the certificate holds the public half of the private key, as `public_eq` says.
pub uninterp spec fn x509_matches_key(cert: Seq<u8>, key: Seq<u8>) -> bool;

/// What the builder of a certificate holds, where it holds nothing else.
pub uninterp spec fn builder_fields(builder: X509Builder) -> X509Fields;

/// The fields and texts in the builder of a name, in order.
pub uninterp spec fn name_entries(builder: X509NameBuilder) -> Seq<(Seq<char>, Seq<char>)>;

/// The DNS names in a list of alternative names, in order, where it holds no other.
pub uninterp spec fn san_names(san: SubjectAlternativeName) -> Seq<Seq<char>>;

/// The certificate is what `build` makes of the fields. A signature may hold random bits, so
/// several certificates can be.
pub uninterp spec fn x509_built(fields: X509Fields, der: Seq<u8>) -> bool;

/// The archive is what `build2` makes of these: a friendly name, the authority's certificate, the
/// certificate, its private key and a password. An archive is salted, so several can be.
pub uninterp spec fn pkcs12_built(
    name: Seq<char>,
    ca: Seq<u8>,
    cert: Seq<u8>,
    key: Seq<u8>,
    password: Seq<char>,
    p12: Seq<u8>,
) -> bool;

/// Calls `X509Req::from_der`, to see whether the request can be read.
#[verifier::external_body]
pub(crate) fn check_request(csr: &[u8]) -> (r: Result<(), ErrorStack>)
    ensures
        r is Ok <==> csr_readable(csr@),
{
    X509Req::from_der(csr).map(|_request| ())
}

/// Calls `X509Req::public_key`, and `public_key_to_der` on what it gives.
#[verifier::external_body]
pub(crate) fn request_public_key(csr: &[u8]) -> (r: Result<Vec<u8>, ErrorStack>)
    ensures
        r matches Ok(key) ==> key@ == csr_public_key(csr@),
{
    X509Req::from_der(csr)?.public_key()?.public_key_to_der()
}

/// Calls `X509Req::verify` with the request's own key.
#[verifier::external_body]
pub(crate) fn request_verify(csr: &[u8]) -> (r: Result<bool, ErrorStack>)
    ensures
        r matches Ok(verified) ==> csr_verdict(csr@, verified),
{
    let request = X509Req::from_der(csr)?;
    let key = request.public_key()?;
    request.verify(&key)
}

/// Calls `X509::from_der` and writes the certificate again by `to_der`, which can write every
/// certificate whose length has 31 bits.
#[verifier::external_body]
pub(crate) fn certificate_from_der(der: &[u8]) -> (r: Result<Vec<u8>, ErrorStack>)
    ensures
        r matches Ok(v) ==> x509_readable(der@) && x509_der(der@) == Some(v@),
        r is Err ==> x509_der(der@) is None,
        r is Err ==> !(x509_readable(der@) && der@.len() <= i32::MAX),
{
    X509::from_der(der)?.to_der()
}

/// Calls `X509::from_pem` and writes the certificate by `to_der`, so that it can be read again. The
/// text is put into a memory buffer, whose length has 31 bits. For an encrypted text a password is
/// asked for at the terminal: what comes of that is left open.
#[verifier::external_body]
pub(crate) fn certificate_from_pem(pem: &[u8]) -> (r: Result<Vec<u8>, ErrorStack>)
    requires
        pem@.len() <= i32::MAX,
    ensures
        r matches Ok(v) ==> x509_readable(v@),
        r matches Ok(v) ==> !is_encrypted_pem(pem@) ==> x509_pem_der(pem@) == Some(v@),
        r is Err ==> !is_encrypted_pem(pem@) ==> x509_pem_der(pem@) is None,
{
    X509::from_pem(pem)?.to_der()
}

/// The length up to which a certificate can be written in PEM: its text still fits into a memory
/// buffer.
pub const MAX_PEM_CERTIFICATE: usize = 0x3fff_ffff;

/// The word `Proc-Type:`, with which the header of an encrypted block of PEM begins.
pub open spec fn proc_type() -> Seq<u8> {
    seq![80u8, 114, 111, 99, 45, 84, 121, 112, 101, 58]
}

/// A block of the PEM text may be encrypted: the word is in the text.
pub open spec fn is_encrypted_pem(text: Seq<u8>) -> bool {
    exists|i: int|
        0 <= i <= text.len() - 10 && (#[trigger] text.subrange(i, i + 10)) == proc_type()
}

/// No block of the PEM text is encrypted, and its last line is complete.
pub open spec fn is_plain_pem(text: Seq<u8>) -> bool {
    &&& !is_encrypted_pem(text)
    &&& text.len() > 0
    &&& text.last() == 10
}

/// The text is the certificate in PEM. Reading it gives the certificate back, here and in
/// `x509-parser`, whatever stands behind it.
pub open spec fn is_pem_of(der: Seq<u8>, pem: Seq<u8>) -> bool {
    &&& x509_pem(der) == Some(pem)
    &&& is_plain_pem(pem)
    &&& x509_der(der) is Some
    &&& forall|tail: Seq<u8>| #[trigger] x509_pem_der(pem + tail) == x509_der(der)
    &&& forall|tail: Seq<u8>| #[trigger] x509_api::x509_parser_pem(pem + tail) == x509_der(der)
}

/// Calls `to_pem`, which writes every certificate that can be read, up to a length. Both readers of
/// PEM read the first block of a text and not what stands behind it.
#[verifier::external_body]
pub(crate) fn certificate_to_pem(der: &[u8]) -> (r: Result<Vec<u8>, ErrorStack>)
    ensures
        r matches Ok(pem) ==> x509_readable(der@) && is_pem_of(der@, pem@),
        r is Err ==> x509_pem(der@) is None,
        r is Err ==> !(x509_readable(der@) && der@.len() <= MAX_PEM_CERTIFICATE),
{
    X509::from_der(der)?.to_pem()
}

/// Calls `PKey::private_key_from_der`, to see whether the key can be read.
#[verifier::external_body]
pub(crate) fn check_private_key(der: &[u8]) -> (r: Result<(), ErrorStack>)
    ensures
        r is Ok ==> private_key_readable(der@),
{
    PKey::private_key_from_der(der).map(|_key| ())
}

/// Calls `public_key` on a certificate, and `public_eq` on that and a private key.
#[verifier::external_body]
pub(crate) fn certificate_matches_key(cert: &[u8], key: &[u8]) -> (r: Result<bool, ErrorStack>)
    ensures
        r matches Ok(matching) ==> matching == x509_matches_key(cert@, key@),
{
    Ok(X509::from_der(cert)?.public_key()?.public_eq(&*PKey::private_key_from_der(key)?))
}

/// Calls `BigNum::rand` for a number of at most so many bits, odd or even, and `to_vec`. Which
/// number it is is left open.
#[verifier::external_body]
pub(crate) fn random_number(bits: i32) -> (r: Result<Vec<u8>, ErrorStack>)
    requires
        0 <= bits <= i32::MAX - 7,
    ensures
        r matches Ok(v) ==> is_minimal(v@) && v@.len() <= (bits + 7) / 8,
{
    let mut number = BigNum::new()?;
    number.rand(bits, MsbOption::MAYBE_ZERO, false)?;
    Ok(number.to_vec())
}

/// Calls `X509Builder::new`.
#[verifier::external_body]
pub(crate) fn builder_new() -> (r: Result<X509Builder, ErrorStack>)
    ensures
        r matches Ok(b) ==> builder_fields(b) == no_fields(),
{
    X509Builder::new()
}

/// Calls `X509Builder::set_version`.
#[verifier::external_body]
pub(crate) fn set_version(builder: &mut X509Builder, version: i32) -> (r: Result<(), ErrorStack>)
    ensures
        r is Ok ==> builder_fields(*final(builder)) == (X509Fields {
            version: Some(version as int),
            ..builder_fields(*old(builder))
        }),
{
    builder.set_version(version)
}

/// Calls `X509Builder::set_serial_number` with the number that `BigNum::from_slice` makes of the
/// bytes, whose length has 31 bits.
#[verifier::external_body]
pub(crate) fn set_serial_number(builder: &mut X509Builder, serial: &[u8]) -> (r: Result<
    (),
    ErrorStack,
>)
    requires
        serial@.len() <= i32::MAX,
    ensures
        r is Ok ==> builder_fields(*final(builder)) == (X509Fields {
            serial: Some(serial@),
            ..builder_fields(*old(builder))
        }),
{
    builder.set_serial_number(&*BigNum::from_slice(serial)?.to_asn1_integer()?)
}

/// Calls `X509Builder::set_not_before` with the time that `Asn1Time::from_unix` makes.
#[verifier::external_body]
pub(crate) fn set_not_before(builder: &mut X509Builder, seconds: i64) -> (r: Result<
    (),
    ErrorStack,
>)
    ensures
        r is Ok ==> builder_fields(*final(builder)) == (X509Fields {
            not_before: Some(seconds as int),
            ..builder_fields(*old(builder))
        }),
{
    builder.set_not_before(&*Asn1Time::from_unix(seconds)?)
}

/// Calls `X509Builder::set_not_after` with the time that `Asn1Time::from_unix` makes.
#[verifier::external_body]
pub(crate) fn set_not_after(builder: &mut X509Builder, seconds: i64) -> (r: Result<(), ErrorStack>)
    ensures
        r is Ok ==> builder_fields(*final(builder)) == (X509Fields {
            not_after: Some(seconds as int),
            ..builder_fields(*old(builder))
        }),
{
    builder.set_not_after(&*Asn1Time::from_unix(seconds)?)
}

/// Calls `X509Builder::set_pubkey` with the key that `PKey::public_key_from_der` reads.
#[verifier::external_body]
pub(crate) fn set_public_key(builder: &mut X509Builder, key: &[u8]) -> (r: Result<(), ErrorStack>)
    ensures
        r is Ok ==> builder_fields(*final(builder)) == (X509Fields {
            public_key: Some(key@),
            ..builder_fields(*old(builder))
        }),
{
    builder.set_pubkey(&*PKey::public_key_from_der(key)?)
}

/// Calls `X509NameBuilder::new`.
#[verifier::external_body]
pub(crate) fn name_new() -> (r: Result<X509NameBuilder, ErrorStack>)
    ensures
        r matches Ok(b) ==> name_entries(b) == Seq::<(Seq<char>, Seq<char>)>::empty(),
{
    X509NameBuilder::new()
}

/// Calls `X509NameBuilder::append_entry_by_text`, which panics on a NUL in the field's name and on
/// a text whose length does not have 31 bits.
#[verifier::external_body]
pub(crate) fn name_append(builder: &mut X509NameBuilder, field: &str, text: &str) -> (r: Result<
    (),
    ErrorStack,
>)
    requires
        no_nul(field@),
        utf8_len(text@) <= i32::MAX,
    ensures
        r is Ok ==> name_entries(*final(builder)) == name_entries(*old(builder)).push(
            (field@, text@),
        ),
{
    builder.append_entry_by_text(field, text)
}

/// Calls `X509NameBuilder::build`, which writes the name and reads it again, and
/// `X509Builder::set_subject_name`. A common name or an organizational unit has 64 characters at
/// most, so that a few of them can always be read again; of other fields nothing is said.
#[verifier::external_body]
pub(crate) fn set_subject_name(builder: &mut X509Builder, name: X509NameBuilder) -> (r: Result<
    (),
    ErrorStack,
>)
    requires
        name_entries(name).len() <= 16,
        forall|i: int|
            0 <= i < name_entries(name).len() ==> (#[trigger] name_entries(name)[i]).0 == "CN"@
                || name_entries(name)[i].0 == "OU"@,
    ensures
        r is Ok ==> builder_fields(*final(builder)) == (X509Fields {
            subject: Some(name_entries(name)),
            ..builder_fields(*old(builder))
        }),
{
    builder.set_subject_name(&*name.build())
}

/// Calls `X509Builder::set_issuer_name` with the subject of a certificate.
#[verifier::external_body]
pub(crate) fn set_issuer_name(builder: &mut X509Builder, ca: &[u8]) -> (r: Result<(), ErrorStack>)
    ensures
        r is Ok ==> x509_readable(ca@),
        r is Ok ==> builder_fields(*final(builder)) == (X509Fields {
            issuer: Some(ca@),
            ..builder_fields(*old(builder))
        }),
{
    builder.set_issuer_name(X509::from_der(ca)?.subject_name())
}

/// Calls `SubjectAlternativeName::new`.
#[verifier::external_body]
pub(crate) fn san_new() -> (san: SubjectAlternativeName)
    ensures
        san_names(san) == Seq::<Seq<char>>::empty(),
{
    SubjectAlternativeName::new()
}

/// Calls `SubjectAlternativeName::dns`.
#[verifier::external_body]
pub(crate) fn san_push_dns(san: &mut SubjectAlternativeName, name: &str)
    ensures
        san_names(*final(san)) == san_names(*old(san)).push(name@),
{
    san.dns(name);
}

/// Calls `SubjectAlternativeName::build`, which panics on a name whose length does not have 31
/// bits, and appends the extension.
#[verifier::external_body]
pub(crate) fn append_subject_alt_name(
    builder: &mut X509Builder,
    san: &SubjectAlternativeName,
) -> (r: Result<(), ErrorStack>)
    requires
        forall|i: int| 0 <= i < san_names(*san).len() ==> fits_asn1(#[trigger] san_names(*san)[i]),
    ensures
        r is Ok ==> builder_fields(*final(builder)) == with_extension(
            builder_fields(*old(builder)),
            Extension::SubjectAltName(san_names(*san)),
        ),
{
    let extension = san.build(&builder.x509v3_context(None, None))?;
    builder.append_extension(extension)
}

/// Calls `ExtendedKeyUsage::server_auth` and appends the extension.
#[verifier::external_body]
pub(crate) fn append_server_auth(builder: &mut X509Builder) -> (r: Result<(), ErrorStack>)
    ensures
        r is Ok ==> builder_fields(*final(builder)) == with_extension(
            builder_fields(*old(builder)),
            Extension::ServerAuth,
        ),
{
    builder.append_extension(ExtendedKeyUsage::new().server_auth().build()?)
}

/// Calls `BasicConstraints::build` with nothing set, and appends the extension.
#[verifier::external_body]
pub(crate) fn append_not_authority(builder: &mut X509Builder) -> (r: Result<(), ErrorStack>)
    ensures
        r is Ok ==> builder_fields(*final(builder)) == with_extension(
            builder_fields(*old(builder)),
            Extension::NotAuthority,
        ),
{
    builder.append_extension(BasicConstraints::new().build()?)
}

/// Calls `KeyUsage::digital_signature` and `KeyUsage::key_encipherment`, and appends the extension.
#[verifier::external_body]
pub(crate) fn append_sign_and_encipher(builder: &mut X509Builder) -> (r: Result<(), ErrorStack>)
    ensures
        r is Ok ==> builder_fields(*final(builder)) == with_extension(
            builder_fields(*old(builder)),
            Extension::SignAndEncipher,
        ),
{
    builder.append_extension(KeyUsage::new().digital_signature().key_encipherment().build()?)
}

/// Calls `SubjectKeyIdentifier::build` and appends the extension.
#[verifier::external_body]
pub(crate) fn append_subject_key_identifier(builder: &mut X509Builder) -> (r: Result<
    (),
    ErrorStack,
>)
    ensures
        r is Ok ==> builder_fields(*final(builder)) == with_extension(
            builder_fields(*old(builder)),
            Extension::SubjectKeyIdentifier,
        ),
{
    let extension = SubjectKeyIdentifier::new().build(&builder.x509v3_context(None, None))?;
    builder.append_extension(extension)
}

/// Calls `AuthorityKeyIdentifier::keyid` and `build` for a certificate of the authority, and
/// appends the extension.
#[verifier::external_body]
pub(crate) fn append_authority_key_identifier(builder: &mut X509Builder, ca: &[u8]) -> (r: Result<
    (),
    ErrorStack,
>)
    ensures
        r is Ok ==> builder_fields(*final(builder)) == with_extension(
            builder_fields(*old(builder)),
            Extension::AuthorityKeyIdentifier(ca@),
        ),
{
    let issuer = X509::from_der(ca)?;
    let context = builder.x509v3_context(Some(&*issuer), None);
    let extension = AuthorityKeyIdentifier::new().keyid(true).build(&context)?;
    builder.append_extension(extension)
}

/// Calls `X509Builder::sign` with SHA-256 and the key that `PKey::private_key_from_der` reads.
#[verifier::external_body]
pub(crate) fn sign(builder: &mut X509Builder, key: &[u8]) -> (r: Result<(), ErrorStack>)
    ensures
        r is Ok ==> private_key_readable(key@),
        r is Ok ==> builder_fields(*final(builder)) == (X509Fields {
            signer: Some(key@),
            ..builder_fields(*old(builder))
        }),
{
    builder.sign(&*PKey::private_key_from_der(key)?, MessageDigest::sha256())
}

/// Calls `X509Builder::build` and `to_der`, which gives a length of 31 bits at most. Of a signed
/// certificate in which nothing is missing, reading gives back what was put into the builder.
#[verifier::external_body]
pub(crate) fn build(builder: X509Builder) -> (r: Result<Vec<u8>, ErrorStack>)
    ensures
        r matches Ok(der) ==> {
            let fields = builder_fields(builder);
            &&& x509_built(fields, der@)
            &&& der@.len() <= i32::MAX
            &&& is_complete(fields) ==> is_read_back(fields, der@)
        },
{
    builder.build().to_der()
}

/// Calls `serial_number`, `to_bn` and `to_vec`.
#[verifier::external_body]
pub(crate) fn certificate_serial(der: &[u8]) -> (r: Result<Vec<u8>, ErrorStack>)
    ensures
        r matches Ok(v) ==> x509_serial(der@) == Some(v@) && is_minimal(v@),
        r is Err ==> x509_serial(der@) is None,
{
    Ok(X509::from_der(der)?.serial_number().to_bn()?.to_vec())
}

/// The texts of a list of names, of which some have none.
pub open spec fn optional_texts(names: Seq<Option<String>>) -> Seq<Option<Seq<char>>> {
    names.map_values(|n: Option<String>| model::optional_text(n))
}

/// Calls `subject_alt_names`, and `dnsname` on each.
#[verifier::external_body]
pub(crate) fn certificate_san(der: &[u8]) -> (r: Result<Option<Vec<Option<String>>>, ErrorStack>)
    ensures
        r is Ok <==> x509_readable(der@),
        r matches Ok(None) ==> x509_san(der@) is None,
        r matches Ok(Some(names)) ==> x509_san(der@) == Some(optional_texts(names@)),
{
    let san = X509::from_der(der)?.subject_alt_names();
    Ok(san.map(|names| names.iter().map(|n| n.dnsname().map(|s| s.to_string())).collect()))
}

/// Calls `entries_by_nid` on the subject, and `to_string` on the value of the first entry, which
/// fails on a value that cannot be written in characters.
#[verifier::external_body]
pub(crate) fn certificate_subject_text(der: &[u8], attribute: DnAttribute) -> (r: Result<
    Option<Result<String, ErrorStack>>,
    ErrorStack,
>)
    ensures
        r is Ok <==> x509_readable(der@),
        r matches Ok(None) ==> x509_subject_text(der@, attribute) is None,
        r matches Ok(Some(Ok(text))) ==> x509_subject_text(der@, attribute) == Some(Some(text@)),
        r matches Ok(Some(Err(_))) ==> x509_subject_text(der@, attribute) == Some(
            None::<Seq<char>>,
        ),
{
    let nid = match attribute {
        DnAttribute::CommonName => Nid::COMMONNAME,
        DnAttribute::OrganizationalUnit => Nid::ORGANIZATIONALUNITNAME,
    };
    let cert = X509::from_der(der)?;
    let entry = cert.subject_name().entries_by_nid(nid).next();
    Ok(entry.map(|e| e.data().to_string()))
}

/// Calls `Asn1Time::diff` between a time and the certificate's `not_before`.
#[verifier::external_body]
pub(crate) fn certificate_not_before(der: &[u8], from: i64) -> (r: Result<(i32, i32), ErrorStack>)
    ensures
        r matches Ok(d) ==> x509_not_before(der@, from as int) == Some((d.0 as int, d.1 as int)),
        r is Err ==> x509_not_before(der@, from as int) is None,
{
    let difference = Asn1Time::from_unix(from)?.diff(X509::from_der(der)?.not_before())?;
    Ok((difference.days, difference.secs))
}

/// Calls `Asn1Time::diff` between a time and the certificate's `not_after`.
#[verifier::external_body]
pub(crate) fn certificate_not_after(der: &[u8], from: i64) -> (r: Result<(i32, i32), ErrorStack>)
    ensures
        r matches Ok(d) ==> x509_not_after(der@, from as int) == Some((d.0 as int, d.1 as int)),
        r is Err ==> x509_not_after(der@, from as int) is None,
{
    let difference = Asn1Time::from_unix(from)?.diff(X509::from_der(der)?.not_after())?;
    Ok((difference.days, difference.secs))
}

/// Calls `Pkcs12::from_der`, to see whether the archive can be read.
#[verifier::external_body]
pub(crate) fn check_archive(p12: &[u8]) -> (r: Result<(), ErrorStack>)
    ensures
        r is Ok <==> pkcs12_readable(p12@),
{
    Pkcs12::from_der(p12).map(|_archive| ())
}

/// Calls `Pkcs12::parse2`, which panics on a NUL in the password, and writes the certificate that
/// it finds by `to_der`, so that it can be read again.
#[verifier::external_body]
pub(crate) fn archive_certificate(p12: &[u8], password: &str) -> (r: Result<
    Option<Vec<u8>>,
    ErrorStack,
>)
    requires
        no_nul(password@),
    ensures
        r is Ok ==> pkcs12_readable(p12@),
        r matches Ok(None) ==> pkcs12_finds(p12@, password@, None),
        r matches Ok(Some(cert)) ==> pkcs12_finds(p12@, password@, Some(cert@)) && x509_readable(
            cert@,
        ),
{
    let cert = Pkcs12::from_der(p12)?.parse2(password)?.cert;
    cert.map(|c| c.to_der()).transpose()
}

/// Calls `Pkcs12::builder` with `name`, `ca`, `cert` and `pkey`, and `build2`, which panics on a
/// NUL in the name or in the password, and on a password whose length does not have 31 bits.
/// Whoever opens the archive with the password finds the certificate in it. It is found by its key,
/// so that this is said only of an authority whose certificate holds another key.
#[verifier::external_body]
pub(crate) fn archive_build(name: &str, ca: &[u8], cert: &[u8], key: &[u8], password: &str) -> (r:
    Result<Vec<u8>, ErrorStack>)
    requires
        no_nul(name@),
        no_nul(password@),
        utf8_len(password@) <= i32::MAX,
    ensures
        r matches Ok(p12) ==> {
            &&& x509_readable(ca@)
            &&& x509_readable(cert@)
            &&& x509_der(cert@) is Some
            &&& private_key_readable(key@)
            &&& pkcs12_built(name@, ca@, cert@, key@, password@, p12@)
            &&& !x509_matches_key(ca@, key@) ==> forall|found: Option<Seq<u8>>| #[trigger]
                pkcs12_finds(p12@, password@, found) ==> found == x509_der(cert@)
        },
{
    let own_cert = X509::from_der(cert)?;
    let ca_cert = X509::from_der(ca)?;
    let own_key = PKey::private_key_from_der(key)?;
    let mut chain = Stack::new()?;
    chain.push(ca_cert)?;
    let mut builder = Pkcs12::builder();
    builder.name(name).ca(chain).cert(&own_cert).pkey(&own_key);
    builder.build2(password)?.to_der()
}

}
