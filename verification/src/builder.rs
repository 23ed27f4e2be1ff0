//! The builder of authority, client and server certificates.
use rcgen::CertificateParams;
use vstd::prelude::*;

use crate::clock;
use crate::clock::check_validity;
use crate::clock::now_utc;
use crate::clock::timestamp_at;
use crate::clock::NANOS;
use crate::clock::NANOS_PER_MILLI;
use crate::model;
use crate::model::from_openssl;
use crate::model::from_rcgen;
use crate::model::CAType;
use crate::model::CertData;
use crate::model::CertError;
use crate::model::Certificate;
use crate::model::CertificateRenewMethod;
use crate::model::CertificateType;
use crate::model::DnAttribute;
use crate::model::Name;
use crate::model::NameView;
use crate::model::TimespanUnit;
use crate::model::CA;
use crate::openssl_api;
use crate::rcgen_api;
use crate::rcgen_api::Authority;
use crate::rcgen_api::ExtendedUse;
use crate::rcgen_api::KeyUse;
use crate::rcgen_api::San;
use crate::rcgen_api::SanView;
use crate::text;
use crate::x509_api;

verus! {

/// The number of a record that is not stored yet.
pub const UNSTORED: i64 = -1;

/// The days that a renewed certificate is valid at least.
pub const MIN_RENEWAL_DAYS: i64 = 14;

/// Collects what goes into a certificate and then makes it.
pub struct TLSCertificateBuilder {
    key: Vec<u8>,
    serial: u64,
    not_before: i128,
    not_after: Option<i128>,
    name: Option<Name>,
    sans: Vec<San>,
    pkcs12_password: String,
    ca: Option<(i64, Vec<u8>, Vec<u8>)>,
    user_id: Option<i64>,
    renew_method: CertificateRenewMethod,
}

/// The value of a `TLSCertificateBuilder`.
#[verifier::ext_equal]
pub struct BuilderView {
    /// The private key in DER.
    pub key: Seq<u8>,
    pub serial: u64,
    /// Nanoseconds since 1970.
    pub not_before: i128,
    /// Nanoseconds since 1970.
    pub not_after: Option<i128>,
    pub name: Option<NameView>,
    pub sans: Seq<SanView>,
    pub password: Seq<char>,
    /// The authority's number, certificate and private key.
    pub ca: Option<(i64, Seq<u8>, Seq<u8>)>,
    pub user_id: Option<i64>,
    pub renew_method: CertificateRenewMethod,
}

/// The text of an alternative name.
pub open spec fn san_text(san: SanView) -> Seq<char> {
    match san {
        SanView::Dns(text) => text,
        SanView::Email(text) => text,
    }
}

/// The values of a list of alternative names.
pub open spec fn san_views(sans: Seq<San>) -> Seq<SanView> {
    sans.map_values(|s: San| s@)
}

impl View for TLSCertificateBuilder {
    type V = BuilderView;

    closed spec fn view(&self) -> BuilderView {
        BuilderView {
            key: self.key@,
            serial: self.serial,
            not_before: self.not_before,
            not_after: self.not_after,
            name: match self.name {
                Some(name) => Some(name@),
                None => None,
            },
            sans: san_views(self.sans@),
            password: self.pkcs12_password@,
            ca: match self.ca {
                Some((id, cert, key)) => Some((id, cert@, key@)),
                None => None,
            },
            user_id: self.user_id,
            renew_method: self.renew_method,
        }
    }
}

/// The times are dates and times, and the alternative names are ASCII.
pub open spec fn is_valid(v: BuilderView) -> bool {
    &&& clock::is_date_time(v.not_before as int)
    &&& v.not_after matches Some(end) ==> clock::is_date_time(end as int)
    &&& forall|i: int| 0 <= i < v.sans.len() ==> rcgen_api::is_ascii(#[trigger] san_text(v.sans[i]))
}

/// A builder into which nothing has been put.
pub open spec fn fresh_builder(key: Seq<u8>, now: i128, serial: u64) -> BuilderView {
    BuilderView {
        key,
        serial,
        not_before: now,
        not_after: None,
        name: None,
        sans: Seq::empty(),
        password: Seq::empty(),
        ca: None,
        user_id: None,
        renew_method: CertificateRenewMethod::NoRenewal,
    }
}

/// The builder after `set_name`.
pub open spec fn named(v: BuilderView, name: NameView) -> BuilderView {
    BuilderView { name: Some(name), ..v }
}

/// The builder after `set_password`.
pub open spec fn locked_by(v: BuilderView, password: Seq<char>) -> BuilderView {
    BuilderView { password, ..v }
}

/// The builder after `set_dns_san`.
pub open spec fn with_dns_names(v: BuilderView, names: Seq<Seq<char>>) -> BuilderView {
    BuilderView { sans: v.sans + dns_views(names), ..v }
}

/// The builder after `set_email_san`.
pub open spec fn with_email(v: BuilderView, email: Seq<char>) -> BuilderView {
    BuilderView { sans: v.sans.push(SanView::Email(email)), ..v }
}

/// The builder after `set_ca`.
pub open spec fn under(v: BuilderView, ca: model::CAView) -> BuilderView {
    BuilderView { ca: Some((ca.id, ca.cert, ca.key)), ..v }
}

/// The builder after `set_user_id`.
pub open spec fn owned_by(v: BuilderView, user_id: i64) -> BuilderView {
    BuilderView { user_id: Some(user_id), ..v }
}

/// The builder after `set_renew_method`.
pub open spec fn renewed_by(v: BuilderView, renew_method: CertificateRenewMethod) -> BuilderView {
    BuilderView { renew_method, ..v }
}

/// The builder after `set_valid_until` for a validity that starts at `now`.
pub open spec fn valid_for(
    v: BuilderView,
    now: int,
    duration: u64,
    unit: TimespanUnit,
) -> BuilderView {
    BuilderView {
        not_after: Some(clock::validity_end(now, duration, unit) as i128),
        ..v
    }
}

/// Milliseconds since 1970, rounded towards 1970.
pub open spec fn created_millis(nanos: int) -> int {
    clock::towards_zero(nanos, 1_000_000)
}

/// Milliseconds since 1970 of the whole second that has passed.
pub open spec fn until_millis(nanos: int) -> int {
    clock::whole_seconds(nanos) * 1000
}

/// What `new` gives back.
pub open spec fn new_result(r: Result<TLSCertificateBuilder, CertError>) -> bool {
    match r {
        Ok(b) => {
            &&& rcgen_api::is_p256_document(b@.key)
            &&& clock::utc_clock_shows(b@.not_before as int)
            &&& clock::is_date_time(b@.not_before as int)
            &&& b@ == fresh_builder(b@.key, b@.not_before, b@.serial)
        },
        Err(e) => e is Rcgen,
    }
}

/// What `set_valid_until` gives back.
pub open spec fn valid_until_result(
    v: BuilderView,
    duration: u64,
    unit: TimespanUnit,
    r: Result<TLSCertificateBuilder, CertError>,
) -> bool {
    match r {
        Ok(b) => exists|now: int| #[trigger]
            clock::utc_clock_shows(now) && clock::is_date_time(now) && clock::validity_fits(
                now,
                duration,
                unit,
            ) && b@ == valid_for(v, now, duration, unit),
        Err(e) => e is TimeOutOfRange && exists|now: int| #[trigger]
            clock::utc_clock_shows(now) && clock::is_date_time(now) && !clock::validity_fits(
                now,
                duration,
                unit,
            ),
    }
}

/// What `set_dns_san` gives back.
pub open spec fn dns_san_result(
    v: BuilderView,
    names: Seq<Seq<char>>,
    r: Result<TLSCertificateBuilder, CertError>,
) -> bool {
    match r {
        Ok(b) => all_ascii(names) && b@ == with_dns_names(v, names),
        Err(e) => e is Rcgen && !all_ascii(names),
    }
}

/// What `set_email_san` gives back.
pub open spec fn email_san_result(
    v: BuilderView,
    email: Seq<char>,
    r: Result<TLSCertificateBuilder, CertError>,
) -> bool {
    match r {
        Ok(b) => rcgen_api::is_ascii(email) && b@ == with_email(v, email),
        Err(e) => e is Rcgen && !rcgen_api::is_ascii(email),
    }
}

/// What `set_ca` gives back.
pub open spec fn authority_result(
    v: BuilderView,
    ca: model::CAView,
    r: Result<TLSCertificateBuilder, CertError>,
) -> bool {
    match r {
        Ok(b) => ca.ca_type == CAType::TLS && b@ == under(v, ca),
        Err(e) => e is CaNotTls && ca.ca_type != CAType::TLS,
    }
}

/// What `try_from` gives back.
pub open spec fn renewal_result(
    old_cert: model::CertificateView,
    r: Result<TLSCertificateBuilder, CertError>,
) -> bool {
    match r {
        Ok(b) => {
            &&& rcgen_api::is_p256_document(b@.key)
            &&& clock::utc_clock_shows(b@.not_before as int)
            &&& clock::is_date_time(b@.not_before as int)
            &&& exists|now: int| #[trigger]
                clock::utc_clock_shows(now) && clock::is_date_time(now) && renewal_fits(
                    old_cert,
                    now,
                ) && b@ == renewed(
                    fresh_builder(b@.key, b@.not_before, b@.serial),
                    old_cert,
                    now,
                )
        },
        Err(CertError::TimeOutOfRange) => exists|now: int| #[trigger]
            clock::utc_clock_shows(now) && clock::is_date_time(now) && !renewal_fits(old_cert, now),
        Err(e) => e is Rcgen,
    }
}

/// The days for which a certificate was valid, and fourteen at least.
pub open spec fn renewal_days(created_on: int, valid_until: int) -> int {
    let days = (valid_until - created_on) / 86_400_000;
    if days >= MIN_RENEWAL_DAYS {
        days
    } else {
        MIN_RENEWAL_DAYS as int
    }
}

/// The builder after copying an earlier certificate at the time `now`.
pub open spec fn renewed(v: BuilderView, cert: model::CertificateView, now: int) -> BuilderView {
    BuilderView {
        name: Some(cert.name),
        password: cert.password,
        renew_method: cert.renew_method,
        user_id: Some(cert.user_id),
        ..valid_for(
            v,
            now,
            renewal_days(cert.created_on as int, cert.valid_until as int) as u64,
            TimespanUnit::Day,
        )
    }
}

/// The time between the two ends of a certificate's validity can be counted in 64 bits.
pub open spec fn is_countable(cert: model::CertificateView) -> bool {
    i64::MIN <= cert.valid_until - cert.created_on <= i64::MAX
}

/// The subject of a certificate.
pub open spec fn subject_of(name: NameView) -> Seq<(DnAttribute, Seq<char>)> {
    match name.ou {
        Some(ou) => seq![
            (DnAttribute::CommonName, name.cn),
            (DnAttribute::OrganizationalUnit, ou),
        ],
        None => seq![(DnAttribute::CommonName, name.cn)],
    }
}

/// What goes into the certificate of an authority.
pub open spec fn ca_params(v: BuilderView) -> rcgen_api::ParamsView {
    rcgen_api::ParamsView {
        not_before: v.not_before as int,
        not_after: v.not_after->0 as int,
        serial: Some(v.serial),
        subject: subject_of(v.name->0),
        sans: v.sans,
        authority: Authority::Unconstrained,
        key_uses: seq![KeyUse::CertSign, KeyUse::CrlSign],
        extended_uses: Seq::empty(),
        crl_points: Seq::empty(),
    }
}

/// What goes into every certificate.
pub open spec fn base_params(v: BuilderView) -> rcgen_api::ParamsView {
    rcgen_api::ParamsView {
        authority: Authority::NotStated,
        key_uses: Seq::empty(),
        ..ca_params(v)
    }
}

/// What goes into the certificate of a client or server.
pub open spec fn leaf_params(
    v: BuilderView,
    extended_use: Option<ExtendedUse>,
    crl_base: Option<Seq<char>>,
) -> rcgen_api::ParamsView {
    rcgen_api::ParamsView {
        authority: Authority::No,
        key_uses: seq![KeyUse::DigitalSignature, KeyUse::KeyEncipherment],
        extended_uses: match extended_use {
            Some(extended_use) => seq![extended_use],
            None => Seq::empty(),
        },
        crl_points: match crl_base {
            Some(base) => seq![seq![text::crl_address(base, (v.ca->0).0)]],
            None => Seq::empty(),
        },
        ..ca_params(v)
    }
}

/// Both ends of the validity have a year of four digits.
pub open spec fn has_certificate_times(v: BuilderView) -> bool {
    &&& clock::is_certificate_time(v.not_before as int)
    &&& clock::is_certificate_time(v.not_after->0 as int)
}

/// If the builder has what a certificate of an authority needs, the certificate can be written.
pub open spec fn ca_buildable(v: BuilderView) -> bool {
    v.name is Some && v.not_after is Some ==> has_certificate_times(v)
}

/// If the builder has what a certificate of a client or server needs, the certificate and its
/// archive can be written.
pub open spec fn leaf_buildable(v: BuilderView, crl_base: Option<Seq<char>>) -> bool {
    v.name is Some && v.not_after is Some && v.user_id is Some && v.ca is Some ==> {
        &&& is_leaf_writable(v, crl_base)
        &&& openssl_api::no_nul((v.name->0).cn)
        &&& openssl_api::no_nul(v.password)
        &&& openssl_api::utf8_len(v.password) <= i32::MAX
    }
}

/// The certificate of a client or server, for which the builder has what it needs, can be written.
pub open spec fn is_leaf_writable(v: BuilderView, crl_base: Option<Seq<char>>) -> bool {
    &&& has_certificate_times(v)
    &&& rcgen_api::is_issuer((v.ca->0).1)
    &&& crl_base matches Some(base) ==> rcgen_api::is_ascii(base)
}

/// The record of an authority with this certificate.
pub open spec fn ca_record(v: BuilderView, der: Seq<u8>) -> model::CAView {
    model::CAView {
        id: UNSTORED,
        name: v.name->0,
        created_on: created_millis(v.not_before as int) as i64,
        valid_until: until_millis(v.not_after->0 as int) as i64,
        ca_type: CAType::TLS,
        cert: der,
        key: v.key,
        crl_number: 0,
    }
}

/// The record of a certificate with this archive.
pub open spec fn leaf_record(
    v: BuilderView,
    certificate_type: CertificateType,
    p12: Seq<u8>,
) -> model::CertificateView {
    model::CertificateView {
        id: UNSTORED,
        name: v.name->0,
        created_on: created_millis(v.not_before as int) as i64,
        valid_until: until_millis(v.not_after->0 as int) as i64,
        certificate_type,
        data: model::CertDataView::Pkcs12(p12),
        password: v.password,
        ca_id: (v.ca->0).0,
        user_id: v.user_id->0,
        renew_method: v.renew_method,
        revoked_at: None,
    }
}

/// The authority is one that `build_ca` makes.
pub open spec fn is_built_ca(v: BuilderView, ca: model::CAView) -> bool {
    &&& v.name is Some
    &&& v.not_after is Some
    &&& has_certificate_times(v)
    &&& ca == ca_record(v, ca.cert)
    &&& rcgen_api::rcgen_self_signed(ca_params(v), v.key, ca.cert)
    &&& rcgen_api::readings(ca_params(v), ca.cert)
    &&& rcgen_api::is_openssl_sized(ca_params(v), ca.cert) ==> openssl_api::x509_readable(ca.cert)
}

/// The archive holds the certificate `der`, which the builder's authority signed.
pub open spec fn is_archive_of(
    v: BuilderView,
    extended_use: Option<ExtendedUse>,
    crl_base: Option<Seq<char>>,
    p12: Seq<u8>,
    der: Seq<u8>,
) -> bool {
    let (_, ca_cert, ca_key) = v.ca->0;
    let params = leaf_params(v, extended_use, crl_base);
    &&& rcgen_api::rcgen_signed(params, v.key, ca_cert, ca_key, der)
    &&& rcgen_api::readings(params, der)
    &&& openssl_api::x509_readable(ca_cert)
    &&& openssl_api::x509_readable(der)
    &&& openssl_api::pkcs12_built((v.name->0).cn, ca_cert, der, v.key, v.password, p12)
    &&& !openssl_api::x509_matches_key(ca_cert, v.key) ==> forall|found: Option<Seq<u8>>| #[trigger]
        openssl_api::pkcs12_finds(p12, v.password, found) ==> found == Some(der)
}

/// The certificate is one that the builder makes for this use.
pub open spec fn is_built_leaf(
    v: BuilderView,
    certificate_type: CertificateType,
    extended_use: Option<ExtendedUse>,
    crl_base: Option<Seq<char>>,
    cert: model::CertificateView,
) -> bool {
    &&& v.name is Some
    &&& v.not_after is Some
    &&& v.user_id is Some
    &&& v.ca is Some
    &&& has_certificate_times(v)
    &&& exists|p12: Seq<u8>, der: Seq<u8>|
        cert == leaf_record(v, certificate_type, p12) && #[trigger] is_archive_of(
            v,
            extended_use,
            crl_base,
            p12,
            der,
        )
}

/// What a build that needs a name and an end of the validity answers without them.
pub open spec fn missing_of_ca(v: BuilderView) -> Option<CertError> {
    if v.name is None {
        Some(CertError::NameNotSet)
    } else if v.not_after is None {
        Some(CertError::ValidUntilNotSet)
    } else {
        None
    }
}

/// What a build for a user under an authority answers without one of the things that it needs.
pub open spec fn missing_of_leaf(v: BuilderView) -> Option<CertError> {
    if missing_of_ca(v) is Some {
        missing_of_ca(v)
    } else if v.user_id is None {
        Some(CertError::UserIdNotSet)
    } else if v.ca is None {
        Some(CertError::CaNotSet)
    } else {
        None
    }
}

/// What `build_ca` gives back: an error for the first thing that is missing, and otherwise the
/// authority or an error of the crate that makes it.
pub open spec fn ca_result(v: BuilderView, r: Result<CA, CertError>) -> bool {
    match missing_of_ca(v) {
        Some(e) => r == Err::<CA, CertError>(e),
        None => match r {
            Ok(ca) => is_built_ca(v, ca@),
            Err(e) => e is Rcgen,
        },
    }
}

/// What a build for a user under an authority gives back: an error for the first thing that is
/// missing, and otherwise the certificate or an error of the crates that make it.
pub open spec fn leaf_result(
    v: BuilderView,
    certificate_type: CertificateType,
    extended_use: Option<ExtendedUse>,
    crl_base: Option<Seq<char>>,
    r: Result<Certificate, CertError>,
) -> bool {
    match missing_of_leaf(v) {
        Some(e) => r == Err::<Certificate, CertError>(e),
        None => match r {
            Ok(cert) => is_built_leaf(v, certificate_type, extended_use, crl_base, cert@),
            Err(e) => e is Rcgen || e is OpenSsl,
        },
    }
}

/// What `build_client` gives back.
pub open spec fn client_result(
    v: BuilderView,
    crl_base: Option<Seq<char>>,
    r: Result<Certificate, CertError>,
) -> bool {
    leaf_result(v, CertificateType::TLSClient, Some(ExtendedUse::ClientAuth), crl_base, r)
}

/// What `build_server` gives back.
pub open spec fn server_result(
    v: BuilderView,
    crl_base: Option<Seq<char>>,
    r: Result<Certificate, CertError>,
) -> bool {
    leaf_result(v, CertificateType::TLSServer, Some(ExtendedUse::ServerAuth), crl_base, r)
}

/// What `build_common` gives back.
pub open spec fn common_result(
    v: BuilderView,
    certificate_type: CertificateType,
    crl_base: Option<Seq<char>>,
    r: Result<Certificate, CertError>,
) -> bool {
    leaf_result(v, certificate_type, None, crl_base, r)
}

/// All of the texts are ASCII.
pub open spec fn all_ascii(names: Seq<Seq<char>>) -> bool {
    forall|i: int| 0 <= i < names.len() ==> rcgen_api::is_ascii(#[trigger] names[i])
}

/// DNS names as alternative names.
pub open spec fn dns_views(names: Seq<Seq<char>>) -> Seq<SanView> {
    names.map_values(|n: Seq<char>| SanView::Dns(n))
}

/// The text of an optional string slice.
pub open spec fn optional_view(s: Option<&str>) -> Option<Seq<char>> {
    match s {
        Some(t) => Some(t@),
        None => None,
    }
}

impl TLSCertificateBuilder {
    #[verifier::type_invariant]
    spec fn type_inv(self) -> bool {
        is_valid(self@)
    }

    /// A builder with a new key on the curve P-256 and a random serial number, for a certificate
    /// that is valid from what the clock shows.
    pub fn new() -> (r: Result<Self, CertError>)
        ensures
            new_result(r),
    {
        let key: Vec<u8> = from_rcgen(rcgen_api::generate_key())?;
        let now: i128 = now_utc();
        let serial: u64 = rcgen_api::random_u64();
        Ok(Self::with_key(key, now, serial))
    }

    /// A builder with this key and serial number, for a certificate that is valid from `now`.
    pub fn with_key(key: Vec<u8>, now: i128, serial: u64) -> (b: Self)
        requires
            clock::is_date_time(now as int),
        ensures
            b@ == fresh_builder(key@, now, serial),
    {
        let b = TLSCertificateBuilder {
            key,
            serial,
            not_before: now,
            not_after: None,
            name: None,
            sans: Vec::new(),
            pkcs12_password: String::new(),
            ca: None,
            user_id: None,
            renew_method: Default::default(),
        };
        assert(b@ =~= fresh_builder(key@, now, serial));
        b
    }

    /// Sets the subject.
    pub fn set_name(self, name: Name) -> (r: Result<Self, CertError>)
        ensures
            r matches Ok(b) && b@ == named(self@, name@),
    {
        proof {
            use_type_invariant(&self);
        }
        Ok(TLSCertificateBuilder { name: Some(name), ..self })
    }

    /// Sets the end of the validity, which is counted from the present. It lasts an hour at least,
    /// unless its seconds have more than 63 bits: these count backwards.
    pub fn set_valid_until(self, duration: u64, unit: TimespanUnit) -> (r: Result<Self, CertError>)
        ensures
            valid_until_result(self@, duration, unit, r),
    {
        let now: i128 = now_utc();
        if check_validity(now, duration, unit) {
            Ok(self.set_valid_until_at(now, duration, unit))
        } else {
            Err(CertError::TimeOutOfRange)
        }
    }

    /// Sets the end of a validity that is counted from `now`. It lasts an hour at least, unless its
    /// seconds have more than 63 bits: these count backwards.
    pub fn set_valid_until_at(self, now: i128, duration: u64, unit: TimespanUnit) -> (b: Self)
        requires
            clock::is_date_time(now as int),
            clock::validity_fits(now as int, duration, unit),
        ensures
            b@ == valid_for(self@, now as int, duration, unit),
    {
        self.end_at(timestamp_at(now, duration, unit))
    }

    /// Sets the end of the validity.
    fn end_at(self, end: i128) -> (b: Self)
        requires
            clock::is_date_time(end as int),
        ensures
            b@ == (BuilderView { not_after: Some(end), ..self@ }),
    {
        proof {
            use_type_invariant(&self);
        }
        TLSCertificateBuilder { not_after: Some(end), ..self }
    }

    /// Sets the password of the archive.
    pub fn set_password(self, password: &str) -> (r: Result<Self, CertError>)
        ensures
            r matches Ok(b) && b@ == locked_by(self@, password@),
    {
        proof {
            use_type_invariant(&self);
        }
        Ok(TLSCertificateBuilder { pkcs12_password: password.to_owned(), ..self })
    }

    /// Adds DNS names to the alternative names of the subject. A name that is not ASCII is an
    /// error.
    pub fn set_dns_san(self, dns_names: &Vec<String>) -> (r: Result<Self, CertError>)
        ensures
            dns_san_result(self@, model::texts(dns_names@), r),
    {
        proof {
            use_type_invariant(&self);
        }
        let mut builder = self;
        let ghost names = model::texts(dns_names@);
        for i in 0..dns_names.len()
            invariant
                names == model::texts(dns_names@),
                all_ascii(names.take(i as int)),
                builder@ == (BuilderView {
                    sans: self@.sans + dns_views(names.take(i as int)),
                    ..self@
                }),
        {
            proof {
                use_type_invariant(&builder);
            }
            let name: &String = &dns_names[i];
            assert(name@ == names[i as int]);
            from_rcgen(rcgen_api::check_ia5(name.as_str()))?;
            builder = builder.push_san(San::Dns(name.clone()));
            assert(names.take(i + 1) =~= names.take(i as int).push(names[i as int]));
            assert(builder@.sans =~= self@.sans + dns_views(names.take(i + 1)));
        }
        assert(names.take(names.len() as int) =~= names);
        Ok(builder)
    }

    /// Adds an email address to the alternative names of the subject. One that is not ASCII is an
    /// error.
    pub fn set_email_san(self, email: &str) -> (r: Result<Self, CertError>)
        ensures
            email_san_result(self@, email@, r),
    {
        from_rcgen(rcgen_api::check_ia5(email))?;
        Ok(self.push_san(San::Email(email.to_owned())))
    }

    /// Adds an alternative name of the subject.
    fn push_san(self, san: San) -> (b: Self)
        requires
            rcgen_api::is_ascii(san_text(san@)),
        ensures
            b@ == (BuilderView { sans: self@.sans.push(san@), ..self@ }),
    {
        proof {
            use_type_invariant(&self);
        }
        let mut sans = self.sans;
        sans.push(san);
        proof {
            assert(san_views(sans@) =~= self@.sans.push(san@));
        }
        TLSCertificateBuilder { sans, ..self }
    }

    /// Sets the authority that signs, which has to be one for TLS.
    pub fn set_ca(self, ca: &CA) -> (r: Result<Self, CertError>)
        ensures
            authority_result(self@, ca@, r),
    {
        if ca.ca_type != CAType::TLS {
            return Err(CertError::CaNotTls);
        }
        proof {
            use_type_invariant(&self);
            assert(is_valid(under(self@, ca@)));
        }
        Ok(TLSCertificateBuilder { ca: Some((ca.id, ca.cert.clone(), ca.key.clone())), ..self })
    }

    /// Sets the user to whom the certificate belongs.
    pub fn set_user_id(self, user_id: i64) -> (r: Result<Self, CertError>)
        ensures
            r matches Ok(b) && b@ == owned_by(self@, user_id),
    {
        proof {
            use_type_invariant(&self);
        }
        Ok(TLSCertificateBuilder { user_id: Some(user_id), ..self })
    }

    /// Sets what happens when the certificate is about to expire.
    pub fn set_renew_method(self, renew_method: CertificateRenewMethod) -> (r: Result<
        Self,
        CertError,
    >)
        ensures
            r matches Ok(b) && b@ == renewed_by(self@, renew_method),
    {
        proof {
            use_type_invariant(&self);
        }
        Ok(TLSCertificateBuilder { renew_method, ..self })
    }

    /// A builder with what an earlier certificate has: its name, how long it was valid (fourteen
    /// days at least), its password, its renew method and its user.
    pub fn try_from(old_cert: &Certificate) -> (r: Result<Self, CertError>)
        requires
            is_countable(old_cert@),
        ensures
            renewal_result(old_cert@, r),
    {
        let validity_d: u64 = validity_days(old_cert.created_on, old_cert.valid_until);
        let b = Self::new()?;
        let now: i128 = now_utc();
        if check_validity(now, validity_d, TimespanUnit::Day) {
            Ok(b.renew_at(old_cert, now))
        } else {
            Err(CertError::TimeOutOfRange)
        }
    }

    /// Copies an earlier certificate into the builder at the time `now`: its name, how long it was
    /// valid (fourteen days at least), its password, its renew method and its user.
    pub fn renew_at(self, old_cert: &Certificate, now: i128) -> (b: Self)
        requires
            is_countable(old_cert@),
            clock::is_date_time(now as int),
            renewal_fits(old_cert@, now as int),
        ensures
            b@ == renewed(self@, old_cert@, now as int),
    {
        let validity_d: u64 = validity_days(old_cert.created_on, old_cert.valid_until);
        let b = self.set_valid_until_at(now, validity_d, TimespanUnit::Day);
        proof {
            use_type_invariant(&b);
        }
        TLSCertificateBuilder {
            name: Some(old_cert.name.copied()),
            pkcs12_password: old_cert.password.clone(),
            renew_method: old_cert.renew_method,
            user_id: Some(old_cert.user_id),
            ..b
        }
    }

    /// What every certificate of the builder has, as parameters of `rcgen`.
    fn params(&self, name: &Name, not_after: i128) -> (r: Result<CertificateParams, CertError>)
        requires
            self@.name == Some(name@),
            self@.not_after == Some(not_after),
        ensures
            r matches Ok(params) && rcgen_api::params_view(params) == base_params(self@),
    {
        proof {
            use_type_invariant(self);
        }
        let mut params = rcgen_api::params_default();
        rcgen_api::set_not_before(&mut params, self.not_before);
        rcgen_api::set_not_after(&mut params, not_after);
        rcgen_api::set_serial(&mut params, self.serial);
        let mut dn = rcgen_api::name_new();
        rcgen_api::name_push(&mut dn, DnAttribute::CommonName, name.cn.as_str());
        if let Some(ou) = &name.ou {
            rcgen_api::name_push(&mut dn, DnAttribute::OrganizationalUnit, ou.as_str());
        }
        assert(rcgen_api::name_view(dn) =~= subject_of(name@));
        rcgen_api::set_subject(&mut params, dn);
        let ghost start = rcgen_api::params_view(params);
        for i in 0..self.sans.len()
            invariant
                is_valid(self@),
                self@.sans == san_views(self.sans@),
                start.sans == Seq::<SanView>::empty(),
                rcgen_api::params_view(params) == (rcgen_api::ParamsView {
                    sans: self@.sans.take(i as int),
                    ..start
                }),
        {
            assert(self@.sans[i as int] == self.sans@[i as int]@);
            assert(rcgen_api::is_ascii(san_text(self@.sans[i as int])));
            assert(self@.sans.take(i + 1) =~= self@.sans.take(i as int).push(self@.sans[i as int]));
            match &self.sans[i] {
                San::Dns(text) => from_rcgen(rcgen_api::push_dns(&mut params, text.as_str()))?,
                San::Email(text) => from_rcgen(rcgen_api::push_email(&mut params, text.as_str()))?,
            }
        }
        assert(self@.sans.take(self@.sans.len() as int) =~= self@.sans);
        Ok(params)
    }

    /// Whether `build_ca` can be called.
    pub fn can_build_ca(&self) -> (r: bool)
        ensures
            r == ca_buildable(self@),
    {
        match self.not_after {
            Some(not_after) if self.name.is_some() => is_time_writable(self.not_before)
                && is_time_writable(not_after),
            _ => true,
        }
    }

    /// Makes the certificate of an authority, which signs itself.
    pub fn build_ca(self) -> (r: Result<CA, CertError>)
        requires
            ca_buildable(self@),
        ensures
            ca_result(self@, r),
    {
        let name: &Name = match &self.name {
            Some(name) => name,
            None => return Err(CertError::NameNotSet),
        };
        let not_after: i128 = match self.not_after {
            Some(not_after) => not_after,
            None => return Err(CertError::ValidUntilNotSet),
        };
        let mut params = self.params(name, not_after)?;
        rcgen_api::set_authority(&mut params, Authority::Unconstrained);
        rcgen_api::push_key_use(&mut params, KeyUse::CertSign);
        rcgen_api::push_key_use(&mut params, KeyUse::CrlSign);
        assert(rcgen_api::params_view(params) =~= ca_params(self@));
        let cert: Vec<u8> = from_rcgen(rcgen_api::self_signed(&params, self.key.as_slice()))?;
        Ok(self.ca_with(cert))
    }

    /// The record of the authority that the builder is for, with this certificate.
    pub fn ca_with(self, cert: Vec<u8>) -> (ca: CA)
        requires
            self@.name is Some,
            self@.not_after is Some,
        ensures
            ca@ == ca_record(self@, cert@),
    {
        proof {
            use_type_invariant(&self);
        }
        let created_on: i64 = (self.not_before / NANOS_PER_MILLI) as i64;
        let valid_until: i64 = until_millis_of(self.not_after.unwrap());
        CA {
            id: UNSTORED,
            name: self.name.unwrap(),
            created_on,
            valid_until,
            ca_type: CAType::TLS,
            cert,
            key: self.key,
            crl_number: 0,
        }
    }

    /// Whether `build_client`, `build_server` and `build_common` can be called.
    pub fn can_build(&self, crl_base: Option<&str>) -> (r: bool)
        ensures
            r == leaf_buildable(self@, optional_view(crl_base)),
    {
        let name: &Name = match &self.name {
            Some(name) => name,
            None => return true,
        };
        let not_after: i128 = match self.not_after {
            Some(not_after) => not_after,
            None => return true,
        };
        if self.user_id.is_none() {
            return true;
        }
        let ca: &(i64, Vec<u8>, Vec<u8>) = match &self.ca {
            Some(ca) => ca,
            None => return true,
        };
        text::has_no_nul(name.cn.as_str()) && text::has_no_nul(self.pkcs12_password.as_str())
            && text::has_31_bit_length(self.pkcs12_password.as_str()) && self.can_write(
            not_after,
            ca.1.as_slice(),
            crl_base,
        )
    }

    /// Whether the certificate of a client or server can be written.
    fn can_write(&self, not_after: i128, ca_cert: &[u8], crl_base: Option<&str>) -> (r: bool)
        requires
            self@.not_after == Some(not_after),
            self@.ca matches Some(ca) && ca.1 == ca_cert@,
        ensures
            r == is_leaf_writable(self@, optional_view(crl_base)),
    {
        let base_ascii: bool = match crl_base {
            Some(base) => base.is_ascii(),
            None => true,
        };
        base_ascii && is_time_writable(self.not_before) && is_time_writable(not_after)
            && check_issuer(ca_cert)
    }

    /// Whether the authority's certificate holds the builder's own key. In an archive a certificate
    /// is found by its key, so that under such an authority either of the two may be found.
    pub fn shares_key_with(&self, ca: &CA) -> (r: Result<bool, CertError>)
        ensures
            match r {
                Ok(shared) => shared == openssl_api::x509_matches_key(ca.cert@, self@.key),
                Err(e) => e is OpenSsl,
            },
    {
        from_openssl(
            openssl_api::certificate_matches_key(ca.cert.as_slice(), self.key.as_slice()),
        )
    }

    /// Makes a certificate for clients.
    pub fn build_client(self, crl_base: Option<&str>) -> (r: Result<Certificate, CertError>)
        requires
            leaf_buildable(self@, optional_view(crl_base)),
        ensures
            client_result(self@, optional_view(crl_base), r),
    {
        self.build_leaf(CertificateType::TLSClient, Some(ExtendedUse::ClientAuth), crl_base)
    }

    /// Makes a certificate for servers.
    pub fn build_server(self, crl_base: Option<&str>) -> (r: Result<Certificate, CertError>)
        requires
            leaf_buildable(self@, optional_view(crl_base)),
        ensures
            server_result(self@, optional_view(crl_base), r),
    {
        self.build_leaf(CertificateType::TLSServer, Some(ExtendedUse::ServerAuth), crl_base)
    }

    /// Makes a certificate that does not say whether it is for clients or for servers. With a base
    /// for addresses the certificate says where the authority's revocation list is.
    pub fn build_common(self, certificate_type: CertificateType, crl_base: Option<&str>) -> (r:
        Result<Certificate, CertError>)
        requires
            leaf_buildable(self@, optional_view(crl_base)),
        ensures
            common_result(self@, certificate_type, optional_view(crl_base), r),
    {
        self.build_leaf(certificate_type, None, crl_base)
    }

    /// Makes a certificate for clients, or nothing if it or its archive cannot be written. An error
    /// that comes before that is given back.
    pub fn try_build_client(self, crl_base: Option<&str>) -> (r: Option<
        Result<Certificate, CertError>,
    >)
        ensures
            match r {
                Some(built) => client_result(self@, optional_view(crl_base), built),
                None => !leaf_buildable(self@, optional_view(crl_base)),
            },
    {
        if self.can_build(crl_base) {
            Some(self.build_client(crl_base))
        } else {
            self.earlier_error(Some(ExtendedUse::ClientAuth), crl_base)
        }
    }

    /// Makes a certificate for servers, or nothing if it or its archive cannot be written. An error
    /// that comes before that is given back.
    pub fn try_build_server(self, crl_base: Option<&str>) -> (r: Option<
        Result<Certificate, CertError>,
    >)
        ensures
            match r {
                Some(built) => server_result(self@, optional_view(crl_base), built),
                None => !leaf_buildable(self@, optional_view(crl_base)),
            },
    {
        if self.can_build(crl_base) {
            Some(self.build_server(crl_base))
        } else {
            self.earlier_error(Some(ExtendedUse::ServerAuth), crl_base)
        }
    }

    /// Makes a certificate that does not say whether it is for clients or for servers, or nothing
    /// if it or its archive cannot be written. An error that comes before that is given back.
    pub fn try_build_common(self, certificate_type: CertificateType, crl_base: Option<&str>) -> (r:
        Option<Result<Certificate, CertError>>)
        ensures
            match r {
                Some(built) => common_result(
                    self@,
                    certificate_type,
                    optional_view(crl_base),
                    built,
                ),
                None => !leaf_buildable(self@, optional_view(crl_base)),
            },
    {
        if self.can_build(crl_base) {
            Some(self.build_common(certificate_type, crl_base))
        } else {
            self.earlier_error(None, crl_base)
        }
    }

    /// Makes a certificate for this use, signed by the builder's authority.
    fn sign_leaf(
        &self,
        name: &Name,
        not_after: i128,
        ca: &(i64, Vec<u8>, Vec<u8>),
        extended_use: Option<ExtendedUse>,
        crl_base: Option<&str>,
    ) -> (r: Result<Vec<u8>, CertError>)
        requires
            self@.name == Some(name@),
            self@.not_after == Some(not_after),
            self@.ca == Some((ca.0, ca.1@, ca.2@)),
            is_leaf_writable(self@, optional_view(crl_base)),
        ensures
            match r {
                Ok(der) => {
                    let params = leaf_params(self@, extended_use, optional_view(crl_base));
                    &&& rcgen_api::rcgen_signed(params, self@.key, ca.1@, ca.2@, der@)
                    &&& rcgen_api::readings(params, der@)
                },
                Err(e) => e is Rcgen,
            },
    {
        let (ca_id, ca_cert, ca_key): &(i64, Vec<u8>, Vec<u8>) = ca;
        let mut params = self.params(name, not_after)?;
        rcgen_api::push_key_use(&mut params, KeyUse::DigitalSignature);
        rcgen_api::push_key_use(&mut params, KeyUse::KeyEncipherment);
        rcgen_api::set_authority(&mut params, Authority::No);
        if let Some(extended_use) = extended_use {
            rcgen_api::push_extended_use(&mut params, extended_use);
        }
        if let Some(base) = crl_base {
            rcgen_api::push_crl_point(&mut params, text::crl_uri(base, *ca_id));
            proof {
                text::lemma_crl_address_ascii(base@, *ca_id);
            }
        }
        assert(rcgen_api::params_view(params) =~= leaf_params(
            self@,
            extended_use,
            optional_view(crl_base),
        ));
        from_rcgen(
            rcgen_api::signed_by(
                &params,
                self.key.as_slice(),
                ca_cert.as_slice(),
                ca_key.as_slice(),
            ),
        )
    }

    /// The error with which making the certificate ends before its archive is made, if it does.
    fn earlier_error(self, extended_use: Option<ExtendedUse>, crl_base: Option<&str>) -> (r: Option<
        Result<Certificate, CertError>,
    >)
        ensures
            r matches Some(built) ==> built is Err && (built->Err_0 is Rcgen
                || built->Err_0 is OpenSsl),
    {
        match (&self.name, self.not_after, &self.ca) {
            (Some(name), Some(not_after), Some(ca)) => {
                if let Err(e) = from_rcgen(
                    rcgen_api::check_authority(ca.1.as_slice(), ca.2.as_slice()),
                ) {
                    return Some(Err(e));
                }
                if !self.can_write(not_after, ca.1.as_slice(), crl_base) {
                    return None;
                }
                match self.sign_leaf(name, not_after, ca, extended_use, crl_base) {
                    Ok(cert) => match self.check_archived(cert.as_slice(), ca.1.as_slice()) {
                        Ok(()) => None,
                        Err(e) => Some(Err(e)),
                    },
                    Err(e) => Some(Err(e)),
                }
            },
            _ => None,
        }
    }

    /// Makes sure that `openssl` reads what goes into an archive: a certificate, its authority's,
    /// and the builder's key.
    fn check_archived(&self, cert: &[u8], ca_cert: &[u8]) -> (r: Result<(), CertError>)
        ensures
            match r {
                Ok(()) => {
                    &&& openssl_api::x509_readable(cert@)
                    &&& openssl_api::x509_readable(ca_cert@)
                    &&& openssl_api::private_key_readable(self@.key)
                },
                Err(e) => e is OpenSsl,
            },
    {
        from_openssl(openssl_api::certificate_from_der(cert))?;
        from_openssl(openssl_api::certificate_from_der(ca_cert))?;
        from_openssl(openssl_api::check_private_key(self.key.as_slice()))
    }

    /// Makes a certificate for this use, signed by the builder's authority, and its archive.
    fn build_leaf(
        self,
        certificate_type: CertificateType,
        extended_use: Option<ExtendedUse>,
        crl_base: Option<&str>,
    ) -> (r: Result<Certificate, CertError>)
        requires
            leaf_buildable(self@, optional_view(crl_base)),
        ensures
            leaf_result(self@, certificate_type, extended_use, optional_view(crl_base), r),
    {
        let name: &Name = match &self.name {
            Some(name) => name,
            None => return Err(CertError::NameNotSet),
        };
        let not_after: i128 = match self.not_after {
            Some(not_after) => not_after,
            None => return Err(CertError::ValidUntilNotSet),
        };
        if self.user_id.is_none() {
            return Err(CertError::UserIdNotSet);
        }
        let ca: &(i64, Vec<u8>, Vec<u8>) = match &self.ca {
            Some(ca) => ca,
            None => return Err(CertError::CaNotSet),
        };
        let cert: Vec<u8> = self.sign_leaf(name, not_after, ca, extended_use, crl_base)?;
        let (_, ca_cert, _): &(i64, Vec<u8>, Vec<u8>) = ca;
        let p12: Vec<u8> = from_openssl(
            openssl_api::archive_build(
                name.cn.as_str(),
                ca_cert.as_slice(),
                cert.as_slice(),
                self.key.as_slice(),
                self.pkcs12_password.as_str(),
            ),
        )?;
        assert(is_archive_of(self@, extended_use, optional_view(crl_base), p12@, cert@));
        Ok(self.certificate_with(certificate_type, p12))
    }

    /// The record of the certificate that the builder is for, with this archive.
    pub fn certificate_with(self, certificate_type: CertificateType, p12: Vec<u8>) -> (cert:
        Certificate)
        requires
            missing_of_leaf(self@) is None,
        ensures
            cert@ == leaf_record(self@, certificate_type, p12@),
    {
        proof {
            use_type_invariant(&self);
        }
        let created_on: i64 = (self.not_before / NANOS_PER_MILLI) as i64;
        let valid_until: i64 = until_millis_of(self.not_after.unwrap());
        let (ca_id, _, _) = self.ca.unwrap();
        Certificate {
            id: UNSTORED,
            name: self.name.unwrap(),
            created_on,
            valid_until,
            certificate_type,
            data: CertData::Pkcs12(p12),
            password: self.pkcs12_password,
            ca_id,
            user_id: self.user_id.unwrap(),
            renew_method: self.renew_method,
            revoked_at: None,
        }
    }
}

/// The validity of a renewed certificate can be counted from `now`.
pub open spec fn renewal_fits(cert: model::CertificateView, now: int) -> bool {
    clock::validity_fits(
        now,
        renewal_days(cert.created_on as int, cert.valid_until as int) as u64,
        TimespanUnit::Day,
    )
}

/// The days for which a certificate was valid, and fourteen at least.
pub fn validity_days(created_on: i64, valid_until: i64) -> (days: u64)
    requires
        i64::MIN <= valid_until - created_on <= i64::MAX,
    ensures
        days == renewal_days(created_on as int, valid_until as int),
{
    let days: i64 = (valid_until - created_on) / 1000 / 60 / 60 / 24;
    if days >= MIN_RENEWAL_DAYS {
        days as u64
    } else {
        MIN_RENEWAL_DAYS as u64
    }
}

/// Whether the bytes hold a question mark.
fn has_question_mark(value: &[u8]) -> (r: bool)
    ensures
        r == value@.contains(63),
{
    for i in 0..value.len()
        invariant
            forall|j: int| 0 <= j < i ==> value@[j] != 63,
    {
        if value[i] == 63 {
            return true;
        }
    }
    false
}

/// Whether the subject of an authority's certificate can be written as an issuer, if it can be
/// read.
pub fn check_issuer(ca_cert: &[u8]) -> (r: bool)
    ensures
        r == rcgen_api::is_issuer(ca_cert@),
{
    match x509_api::parse_subject(ca_cert) {
        Ok(subject) => check_attributes(subject.as_slice()),
        Err(_) => true,
    }
}

/// Whether each attribute can be written into the issuer of a certificate.
pub fn check_attributes(subject: &[x509_api::NameAttribute]) -> (r: bool)
    ensures
        r == rcgen_api::are_issuer_attributes(x509_api::attribute_views(subject@)),
{
    for i in 0..subject.len()
        invariant
            forall|j: int|
                0 <= j < i ==> rcgen_api::is_issuer_attribute(
                    #[trigger] x509_api::attribute_views(subject@)[j],
                ),
    {
        let attribute: &x509_api::NameAttribute = &subject[i];
        assert(x509_api::attribute_views(subject@)[i as int] == attribute@);
        let oid: &Vec<u8> = &attribute.oid;
        let oid_ok: bool = oid.len() > 0 && oid[0] < 120 && (oid.len() > 1 || oid[0] != 0);
        let value_ok: bool = attribute.tag != x509_api::PRINTABLE_STRING || !has_question_mark(
            attribute.value.as_slice(),
        );
        if !(oid_ok && value_ok) {
            return false;
        }
    }
    true
}

/// Whether a time has a year of four digits.
fn is_time_writable(nanos: i128) -> (r: bool)
    ensures
        r == clock::is_certificate_time(nanos as int),
{
    clock::FIRST_CERTIFICATE_SECOND * NANOS <= nanos && nanos < (clock::LAST_SECOND + 1) * NANOS
}

/// Milliseconds since 1970 of the whole second that has passed.
fn until_millis_of(nanos: i128) -> (millis: i64)
    requires
        clock::is_date_time(nanos as int),
    ensures
        millis == until_millis(nanos as int),
{
    let mut seconds: i128 = nanos / NANOS;
    if seconds * NANOS > nanos {
        seconds = seconds - 1;
    }
    (seconds * 1000) as i64
}

}
