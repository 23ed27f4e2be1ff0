//! The records that certificates are made from and read into, and the errors.
use openssl::error::ErrorStack;
use vstd::prelude::*;
use x509_parser::error::PEMError;
use x509_parser::error::X509Error;

verus! {

/// The error type of `openssl`.
#[verifier::external_type_specification]
#[verifier::external_body]
pub struct ExErrorStack(ErrorStack);

/// The error type of `rcgen`.
#[verifier::external_type_specification]
#[verifier::external_body]
pub struct ExRcgenError(rcgen::Error);

/// The envelope that `x509-parser` puts around its errors.
#[verifier::external_type_specification]
#[verifier::external_body]
#[verifier::reject_recursive_types(E)]
pub struct ExNomErr<E>(x509_parser::nom::Err<E>);

/// The error of `x509-parser` on PEM text.
#[verifier::external_type_specification]
#[verifier::external_body]
pub struct ExPemError(PEMError);

/// The error of `x509-parser` on a certificate.
#[verifier::external_type_specification]
#[verifier::external_body]
pub struct ExX509Error(X509Error);

/// The subject of a certificate.
#[derive(Debug)]
pub struct Name {
    /// The common name.
    pub cn: String,
    /// The organizational unit, if there is one.
    pub ou: Option<String>,
}

/// The value of a `Name`.
pub struct NameView {
    pub cn: Seq<char>,
    pub ou: Option<Seq<char>>,
}

/// The text of an optional string.
pub open spec fn optional_text(s: Option<String>) -> Option<Seq<char>> {
    match s {
        Some(t) => Some(t@),
        None => None,
    }
}

/// The texts of a list of strings.
pub open spec fn texts(s: Seq<String>) -> Seq<Seq<char>> {
    s.map_values(|t: String| t@)
}

impl View for Name {
    type V = NameView;

    open spec fn view(&self) -> NameView {
        NameView { cn: self.cn@, ou: optional_text(self.ou) }
    }
}

impl Name {
    /// A copy of the name.
    pub fn copied(&self) -> (r: Name)
        ensures
            r@ == self@,
    {
        let ou = match &self.ou {
            Some(t) => Some(t.clone()),
            None => None,
        };
        Name { cn: self.cn.clone(), ou }
    }
}

/// The units in which a validity is given.
#[derive(Debug, Clone, Copy, PartialEq, Eq, Structural)]
pub enum TimespanUnit {
    Year,
    Month,
    Day,
    Hour,
}

/// What a certificate is for.
#[derive(Debug, Clone, Copy, PartialEq, Eq, Structural)]
pub enum CertificateType {
    TLSClient,
    TLSServer,
    SSHClient,
    SSHServer,
}

/// What a certificate authority signs.
#[derive(Debug, Clone, Copy, PartialEq, Eq, Structural)]
pub enum CAType {
    TLS,
    SSH,
}

/// How a certificate authority is handed in.
#[derive(Debug, Clone, Copy, PartialEq, Eq, Structural)]
pub enum DataFormat {
    DER,
    PEM,
}

/// What happens when a certificate is about to expire.
#[derive(Debug, Clone, Copy, PartialEq, Eq, Structural)]
pub enum CertificateRenewMethod {
    NoRenewal,
    Notify,
    Renew,
    RenewAndNotify,
}

impl Default for CertificateRenewMethod {
    fn default() -> (r: Self)
        ensures
            r == CertificateRenewMethod::NoRenewal,
    {
        CertificateRenewMethod::NoRenewal
    }
}

/// The attributes of a distinguished name that the crate writes and reads.
#[derive(Debug, Clone, Copy, PartialEq, Eq, Structural)]
pub enum DnAttribute {
    CommonName,
    OrganizationalUnit,
}

/// The form in which a certificate is kept.
#[derive(Debug)]
pub enum CertData {
    /// A PKCS#12 archive with the certificate, its key and its authority.
    Pkcs12(Vec<u8>),
    /// A certificate in PEM.
    Pem(Vec<u8>),
    /// An SSH certificate with its keys.
    SshBundle(Vec<u8>),
}

/// A certificate authority.
#[derive(Debug)]
pub struct CA {
    pub id: i64,
    pub name: Name,
    /// Milliseconds since 1970.
    pub created_on: i64,
    /// Milliseconds since 1970.
    pub valid_until: i64,
    pub ca_type: CAType,
    /// The certificate in DER.
    pub cert: Vec<u8>,
    /// The private key in DER.
    pub key: Vec<u8>,
    pub crl_number: i64,
}

/// The value of a `CA`.
pub struct CAView {
    pub id: i64,
    pub name: NameView,
    pub created_on: i64,
    pub valid_until: i64,
    pub ca_type: CAType,
    pub cert: Seq<u8>,
    pub key: Seq<u8>,
    pub crl_number: i64,
}

impl View for CA {
    type V = CAView;

    open spec fn view(&self) -> CAView {
        CAView {
            id: self.id,
            name: self.name@,
            created_on: self.created_on,
            valid_until: self.valid_until,
            ca_type: self.ca_type,
            cert: self.cert@,
            key: self.key@,
            crl_number: self.crl_number,
        }
    }
}

/// A certificate that an authority issued to a user.
#[derive(Debug)]
pub struct Certificate {
    pub id: i64,
    pub name: Name,
    /// Milliseconds since 1970.
    pub created_on: i64,
    /// Milliseconds since 1970.
    pub valid_until: i64,
    pub certificate_type: CertificateType,
    pub data: CertData,
    /// The password of the PKCS#12 archive.
    pub password: String,
    pub ca_id: i64,
    pub user_id: i64,
    pub renew_method: CertificateRenewMethod,
    pub revoked_at: Option<i64>,
}

/// The value of a `CertData`.
pub enum CertDataView {
    Pkcs12(Seq<u8>),
    Pem(Seq<u8>),
    SshBundle(Seq<u8>),
}

impl View for CertData {
    type V = CertDataView;

    open spec fn view(&self) -> CertDataView {
        match self {
            CertData::Pkcs12(bytes) => CertDataView::Pkcs12(bytes@),
            CertData::Pem(bytes) => CertDataView::Pem(bytes@),
            CertData::SshBundle(bytes) => CertDataView::SshBundle(bytes@),
        }
    }
}

/// The value of a `Certificate`.
pub struct CertificateView {
    pub id: i64,
    pub name: NameView,
    pub created_on: i64,
    pub valid_until: i64,
    pub certificate_type: CertificateType,
    pub data: CertDataView,
    pub password: Seq<char>,
    pub ca_id: i64,
    pub user_id: i64,
    pub renew_method: CertificateRenewMethod,
    pub revoked_at: Option<i64>,
}

impl View for Certificate {
    type V = CertificateView;

    open spec fn view(&self) -> CertificateView {
        CertificateView {
            id: self.id,
            name: self.name@,
            created_on: self.created_on,
            valid_until: self.valid_until,
            certificate_type: self.certificate_type,
            data: self.data@,
            password: self.password@,
            ca_id: self.ca_id,
            user_id: self.user_id,
            renew_method: self.renew_method,
            revoked_at: self.revoked_at,
        }
    }
}

/// Why a certificate could not be made or read.
#[derive(Debug)]
pub enum CertError {
    /// A certificate was to be built without a name.
    NameNotSet,
    /// A certificate was to be built without an end of its validity.
    ValidUntilNotSet,
    /// A certificate was to be built for no user.
    UserIdNotSet,
    /// A certificate was to be built without an authority.
    CaNotSet,
    /// The authority does not sign TLS certificates.
    CaNotTls,
    /// The signature of a signing request does not verify.
    CsrSignature,
    /// The archive whose serial number or DNS names are asked for holds no certificate.
    NoArchiveCertificate,
    /// The certificate in the archive names no alternative subject.
    NoArchiveSan,
    /// The archive whose metadata is asked for holds no certificate.
    NoMetadataCertificate,
    /// The certificate in the archive has no common name.
    NoCommonName,
    /// The certificate of the authority has no common name.
    NoCaCommonName,
    /// The end of the validity cannot be represented.
    TimeOutOfRange,
    /// The clock stands before 1970.
    ClockBeforeEpoch,
    /// PEM text could not be read.
    PemParse(x509_parser::nom::Err<PEMError>),
    /// A certificate could not be read.
    DerParse(x509_parser::nom::Err<X509Error>),
    /// The PEM text of the authority's certificate could not be read.
    CaCertPemParse(x509_parser::nom::Err<PEMError>),
    /// The PEM text of the authority's key could not be read.
    CaKeyPemParse(x509_parser::nom::Err<PEMError>),
    /// The certificate of the authority could not be read.
    CaDerParse(x509_parser::nom::Err<X509Error>),
    /// An operation of `openssl` failed.
    OpenSsl(ErrorStack),
    /// An operation of `rcgen` failed.
    Rcgen(rcgen::Error),
}

/// The fixed words of an error. For an error that carries another one these are the words that
/// stand before it.
pub open spec fn error_text(e: CertError) -> Seq<char> {
    match e {
        CertError::NameNotSet => "X509: name not set"@,
        CertError::ValidUntilNotSet => "X509: valid_until not set"@,
        CertError::UserIdNotSet => "X509: user_id not set"@,
        CertError::CaNotSet => "X509: CA not set"@,
        CertError::CaNotTls => "CA is not of type SSH"@,
        CertError::CsrSignature => "CSR signature verification failed"@,
        CertError::NoArchiveCertificate => "No certificate found in PKCS#12"@,
        CertError::NoArchiveSan => "No SAN found in PKCS#12 certificate"@,
        CertError::NoMetadataCertificate => "No certificate in PKCS#12"@,
        CertError::NoCommonName => "No CN in certificate"@,
        CertError::NoCaCommonName => "No CN in CA certificate"@,
        CertError::TimeOutOfRange => "time out of range"@,
        CertError::ClockBeforeEpoch => "second time provided was later than self"@,
        CertError::PemParse(_) => "Failed to parse PEM: "@,
        CertError::DerParse(_) => "Failed to parse DER: "@,
        CertError::CaCertPemParse(_) => "Failed to parse CA Cert PEM: "@,
        CertError::CaKeyPemParse(_) => "Failed to parse CA Private Key PEM: "@,
        CertError::CaDerParse(_) => "Failed to parse CA DER: "@,
        CertError::OpenSsl(_) => ""@,
        CertError::Rcgen(_) => ""@,
    }
}

impl CertError {
    /// The fixed words of the error.
    pub fn text(&self) -> (r: &'static str)
        ensures
            r@ == error_text(*self),
    {
        match self {
            CertError::NameNotSet => "X509: name not set",
            CertError::ValidUntilNotSet => "X509: valid_until not set",
            CertError::UserIdNotSet => "X509: user_id not set",
            CertError::CaNotSet => "X509: CA not set",
            CertError::CaNotTls => "CA is not of type SSH",
            CertError::CsrSignature => "CSR signature verification failed",
            CertError::NoArchiveCertificate => "No certificate found in PKCS#12",
            CertError::NoArchiveSan => "No SAN found in PKCS#12 certificate",
            CertError::NoMetadataCertificate => "No certificate in PKCS#12",
            CertError::NoCommonName => "No CN in certificate",
            CertError::NoCaCommonName => "No CN in CA certificate",
            CertError::TimeOutOfRange => "time out of range",
            CertError::ClockBeforeEpoch => "second time provided was later than self",
            CertError::PemParse(_) => "Failed to parse PEM: ",
            CertError::DerParse(_) => "Failed to parse DER: ",
            CertError::CaCertPemParse(_) => "Failed to parse CA Cert PEM: ",
            CertError::CaKeyPemParse(_) => "Failed to parse CA Private Key PEM: ",
            CertError::CaDerParse(_) => "Failed to parse CA DER: ",
            CertError::OpenSsl(_) => "",
            CertError::Rcgen(_) => "",
        }
    }
}

/// The result of an operation of `openssl` as a result of this crate.
pub fn from_openssl<T>(r: Result<T, ErrorStack>) -> (o: Result<T, CertError>)
    ensures
        r matches Ok(v) ==> o == Ok::<T, CertError>(v),
        r matches Err(e) ==> o == Err::<T, CertError>(CertError::OpenSsl(e)),
{
    match r {
        Ok(v) => Ok(v),
        Err(e) => Err(CertError::OpenSsl(e)),
    }
}

/// The result of an operation of `rcgen` as a result of this crate.
pub fn from_rcgen<T>(r: Result<T, rcgen::Error>) -> (o: Result<T, CertError>)
    ensures
        r matches Ok(v) ==> o == Ok::<T, CertError>(v),
        r matches Err(e) ==> o == Err::<T, CertError>(CertError::Rcgen(e)),
{
    match r {
        Ok(v) => Ok(v),
        Err(e) => Err(CertError::Rcgen(e)),
    }
}

}
