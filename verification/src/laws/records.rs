//! What the builder and the records hold, and what is missing in them.
use vstd::prelude::*;

use crate::acme;
use crate::builder;
use crate::builder::BuilderView;
use crate::builder::TLSCertificateBuilder;
use crate::clock;
use crate::clock::ClockReading;
use crate::laws;
use crate::model;
use crate::model::CAType;
use crate::model::CertData;
use crate::model::CertError;
use crate::model::Certificate;
use crate::model::CertificateRenewMethod;
use crate::model::CertificateType;
use crate::model::Name;
use crate::model::CA;
use crate::rcgen_api;
use crate::rcgen_api::ExtendedUse;
use crate::rcgen_api::San;
use crate::rcgen_api::SanView;
use crate::reading;
use crate::x509_api;

verus! {

/// The value of a record has each of its fields.
pub proof fn lemma_values_have_all_fields(name: Name, ca: CA, cert: Certificate)
    ensures
        name@.cn == name.cn@,
        name.ou matches Some(ou) ==> name@.ou == Some(ou@),
        name.ou is None ==> name@.ou is None,
        ca@.id == ca.id,
        ca@.name == ca.name@,
        ca@.created_on == ca.created_on,
        ca@.valid_until == ca.valid_until,
        ca@.ca_type == ca.ca_type,
        ca@.cert == ca.cert@,
        ca@.key == ca.key@,
        ca@.crl_number == ca.crl_number,
        cert@.id == cert.id,
        cert@.name == cert.name@,
        cert@.created_on == cert.created_on,
        cert@.valid_until == cert.valid_until,
        cert@.certificate_type == cert.certificate_type,
        cert@.password == cert.password@,
        cert@.ca_id == cert.ca_id,
        cert@.user_id == cert.user_id,
        cert@.renew_method == cert.renew_method,
        cert@.revoked_at == cert.revoked_at,
        cert.data matches CertData::Pkcs12(bytes) ==> cert@.data == model::CertDataView::Pkcs12(
            bytes@,
        ),
        cert.data matches CertData::Pem(bytes) ==> cert@.data == model::CertDataView::Pem(bytes@),
        cert.data matches CertData::SshBundle(bytes) ==> cert@.data
            == model::CertDataView::SshBundle(bytes@),
{
}

/// The texts of a list of strings are its strings, one by one.
pub proof fn lemma_texts_are_the_strings(strings: Seq<String>, i: int)
    requires
        0 <= i < strings.len(),
    ensures
        model::texts(strings).len() == strings.len(),
        model::texts(strings)[i] == strings[i]@,
{
}

/// The values of alternative names, of optional texts and of readings of the clock.
pub proof fn lemma_values_of_parts(text: String, base: &str, der: Vec<u8>, nanos: u128)
    ensures
        San::Dns(text)@ == SanView::Dns(text@),
        San::Email(text)@ == SanView::Email(text@),
        builder::optional_view(Some(base)) == Some(base@),
        builder::optional_view(None) is None,
        reading::optional_bytes(Some(der)) == Some(der@),
        reading::optional_bytes(None) is None,
        clock::reading_nanos(ClockReading::AfterEpoch(nanos)) == nanos,
        clock::reading_nanos(ClockReading::BeforeEpoch(nanos)) == -(nanos as int),
{
}

/// The value of what is read in a certificate has each of its fields.
pub proof fn lemma_value_of_a_parsed_certificate(parsed: x509_api::ParsedCertificate, i: int)
    ensures
        parsed@.serial == parsed.serial@,
        parsed@.not_before == parsed.not_before,
        parsed@.not_after == parsed.not_after,
        parsed@.common_names.len() == parsed.common_names@.len(),
        parsed@.units.len() == parsed.units@.len(),
        0 <= i < parsed.common_names@.len() ==> (parsed.common_names@[i] matches Some(text)
            ==> parsed@.common_names[i] == Some(text@)),
        0 <= i < parsed.common_names@.len() && parsed.common_names@[i] is None
            ==> parsed@.common_names[i] is None,
        0 <= i < parsed.units@.len() ==> (parsed.units@[i] matches Some(text)
            ==> parsed@.units[i] == Some(text@)),
        0 <= i < parsed.units@.len() && parsed.units@[i] is None ==> parsed@.units[i] is None,
{
}

/// Milliseconds since 1970 are those of a time in nanoseconds, rounded towards 1970.
pub open spec fn are_millis_of(millis: int, nanos: int) -> bool {
    &&& nanos >= 0 ==> 0 <= nanos - millis * 1_000_000 < 1_000_000
    &&& nanos < 0 ==> -1_000_000 < nanos - millis * 1_000_000 <= 0
}

/// Milliseconds since 1970 are those of the whole second that has passed at a time in nanoseconds.
pub open spec fn are_second_millis_of(millis: int, nanos: int) -> bool {
    &&& millis % 1000 == 0
    &&& 0 <= nanos - millis * 1_000_000 < 1_000_000_000
}

/// The record of an authority that `build_ca` makes: not stored yet, for TLS, with the builder's
/// name and key, its start in milliseconds and its end in whole seconds, and with no revocation
/// list so far.
pub proof fn lemma_record_of_an_authority(v: BuilderView, r: Result<CA, CertError>)
    requires
        builder::is_valid(v),
        builder::ca_result(v, r),
        r is Ok,
    ensures
        ({
            let ca = (r->Ok_0)@;
            &&& ca.id == -1
            &&& v.name == Some(ca.name)
            &&& are_millis_of(ca.created_on as int, v.not_before as int)
            &&& v.not_after matches Some(end) && are_second_millis_of(
                ca.valid_until as int,
                end as int,
            )
            &&& ca.ca_type == CAType::TLS
            &&& ca.key == v.key
            &&& ca.crl_number == 0
        }),
{
}

/// The record of a certificate that was built under an authority: not stored yet and not revoked,
/// with the builder's name, password, user and renew method, the number of its authority, its start
/// in milliseconds and its end in whole seconds.
pub proof fn lemma_record_of_a_certificate(
    v: BuilderView,
    certificate_type: CertificateType,
    extended_use: Option<ExtendedUse>,
    crl_base: Option<Seq<char>>,
    r: Result<Certificate, CertError>,
)
    requires
        builder::is_valid(v),
        builder::leaf_result(v, certificate_type, extended_use, crl_base, r),
        r is Ok,
    ensures
        ({
            let cert = (r->Ok_0)@;
            &&& cert.id == -1
            &&& v.name == Some(cert.name)
            &&& are_millis_of(cert.created_on as int, v.not_before as int)
            &&& v.not_after matches Some(end) && are_second_millis_of(
                cert.valid_until as int,
                end as int,
            )
            &&& cert.certificate_type == certificate_type
            &&& cert.data is Pkcs12
            &&& cert.password == v.password
            &&& v.ca matches Some((ca_id, _, _)) && cert.ca_id == ca_id
            &&& v.user_id == Some(cert.user_id)
            &&& cert.renew_method == v.renew_method
            &&& cert.revoked_at is None
        }),
{
}

/// The records that `ca_with` and `certificate_with` fill in hold the same of the builder.
pub proof fn lemma_records_are_of_the_builder(
    v: BuilderView,
    certificate_type: CertificateType,
    bytes: Seq<u8>,
)
    requires
        builder::is_valid(v),
        v.name is Some,
        v.not_after is Some,
        v.user_id is Some,
        v.ca is Some,
    ensures
        ({
            let ca = builder::ca_record(v, bytes);
            let cert = builder::leaf_record(v, certificate_type, bytes);
            &&& ca.cert == bytes
            &&& cert.data == model::CertDataView::Pkcs12(bytes)
            &&& ca.id == -1 && cert.id == -1
            &&& v.name == Some(ca.name) && v.name == Some(cert.name)
            &&& ca.created_on == cert.created_on
            &&& are_millis_of(ca.created_on as int, v.not_before as int)
            &&& ca.valid_until == cert.valid_until
            &&& are_second_millis_of(ca.valid_until as int, v.not_after->0 as int)
            &&& ca.ca_type == CAType::TLS
            &&& ca.key == v.key
            &&& ca.crl_number == 0
            &&& cert.certificate_type == certificate_type
            &&& cert.password == v.password
            &&& cert.ca_id == (v.ca->0).0
            &&& v.user_id == Some(cert.user_id)
            &&& cert.renew_method == v.renew_method
            &&& cert.revoked_at is None
        }),
{
}

/// `build_ca` says which of the name and the end of the validity is missing, the name before the
/// end, and otherwise makes the authority, unless `rcgen` fails.
pub proof fn lemma_missing_of_an_authority(v: BuilderView, r: Result<CA, CertError>)
    requires
        builder::ca_result(v, r),
    ensures
        v.name is None <==> (r is Err && r->Err_0 is NameNotSet),
        v.name is Some && v.not_after is None <==> (r is Err && r->Err_0 is ValidUntilNotSet),
        v.name is Some && v.not_after is Some <==> (r is Ok || r->Err_0 is Rcgen),
{
}

/// A build for a user under an authority says which of the name, the end of the validity, the user
/// and the authority is missing, in this order, and otherwise makes the certificate, unless `rcgen`
/// or `openssl` fails.
pub proof fn lemma_missing_of_a_certificate(
    v: BuilderView,
    certificate_type: CertificateType,
    extended_use: Option<ExtendedUse>,
    crl_base: Option<Seq<char>>,
    r: Result<Certificate, CertError>,
)
    requires
        builder::leaf_result(v, certificate_type, extended_use, crl_base, r),
    ensures
        v.name is None <==> (r is Err && r->Err_0 is NameNotSet),
        v.name is Some && v.not_after is None <==> (r is Err && r->Err_0 is ValidUntilNotSet),
        v.name is Some && v.not_after is Some && v.user_id is None <==> (r is Err
            && r->Err_0 is UserIdNotSet),
        v.name is Some && v.not_after is Some && v.user_id is Some && v.ca is None <==> (r is Err
            && r->Err_0 is CaNotSet),
        v.name is Some && v.not_after is Some && v.user_id is Some && v.ca is Some <==> (r is Ok
            || r->Err_0 is Rcgen || r->Err_0 is OpenSsl),
{
}

/// The time has a year from 0 to 9999.
pub open spec fn has_four_digits(nanos: int) -> bool {
    -62_167_219_200_000_000_000 <= nanos < 253_402_300_800_000_000_000
}

/// An authority can be built whatever is in the builder, except that both ends of its validity must
/// have a year of four digits.
pub proof fn lemma_authority_can_be_built(v: BuilderView)
    ensures
        v.name is None || v.not_after is None ==> builder::ca_buildable(v),
        v.name is Some ==> (v.not_after matches Some(end) ==> (builder::ca_buildable(v) <==>
            has_four_digits(v.not_before as int) && has_four_digits(end as int))),
{
}

/// A certificate can be built whatever is in the builder, except that both ends of its validity
/// must have a year of four digits, the base of addresses must be ASCII, the common name and the
/// password must not hold a NUL, the length of the password must have 31 bits, and the authority's
/// subject must be one that can be written.
pub proof fn lemma_certificate_can_be_built(v: BuilderView, crl_base: Option<Seq<char>>)
    ensures
        v.name is None || v.not_after is None || v.user_id is None || v.ca is None
            ==> builder::leaf_buildable(v, crl_base),
        v.user_id is Some ==> (v.name matches Some(name) ==> (v.not_after matches Some(end) ==> (
        v.ca matches Some((_, ca_cert, _)) ==> (builder::leaf_buildable(v, crl_base) <==> {
            &&& has_four_digits(v.not_before as int)
            &&& has_four_digits(end as int)
            &&& crl_base matches Some(base) ==> vstd::utf8::is_ascii_chars(base)
            &&& forall|i: int| 0 <= i < name.cn.len() ==> #[trigger] name.cn[i] != '\0'
            &&& forall|i: int| 0 <= i < v.password.len() ==> #[trigger] v.password[i] != '\0'
            &&& vstd::utf8::encode_utf8(v.password).len() <= 2_147_483_647
            &&& rcgen_api::is_issuer(ca_cert)
        })))),
{
}

/// An attribute whose identifier has two bytes or more and is not one of those without a meaning
/// can be in the subject of an authority, unless it is a printable string with a question mark.
pub proof fn lemma_attribute_of_an_issuer(attribute: x509_api::NameAttributeView)
    requires
        attribute.oid.len() >= 2,
        attribute.oid[0] < 120,
    ensures
        attribute.tag != 19 ==> rcgen_api::is_issuer_attribute(attribute),
        attribute.tag == 19 ==> (rcgen_api::is_issuer_attribute(attribute) <==>
            !attribute.value.contains(63u8)),
{
}

/// Attributes can be in the subject of an authority together if and only if each of them can.
pub proof fn lemma_attributes_are_judged_alone(
    one: Seq<x509_api::NameAttributeView>,
    attribute: x509_api::NameAttributeView,
)
    ensures
        rcgen_api::are_issuer_attributes(one.push(attribute)) <==>
            rcgen_api::are_issuer_attributes(one) && rcgen_api::is_issuer_attribute(attribute),
        rcgen_api::are_issuer_attributes(Seq::empty()),
{
    let all = one.push(attribute);
    assert(all[one.len() as int] == attribute);
    assert forall|i: int| 0 <= i < one.len() implies #[trigger] one[i] == all[i] by {}
    if rcgen_api::are_issuer_attributes(all) {
        assert forall|i: int| 0 <= i < one.len() implies rcgen_api::is_issuer_attribute(
            #[trigger] one[i],
        ) by {
            assert(rcgen_api::is_issuer_attribute(all[i]));
        }
    }
}

/// A new builder has nothing but its key, its serial number and its start.
pub proof fn lemma_new_builder_is_empty(key: Seq<u8>, now: i128, serial: u64)
    ensures
        ({
            let v = builder::fresh_builder(key, now, serial);
            &&& v.key == key
            &&& v.serial == serial
            &&& v.not_before == now
            &&& v.not_after is None
            &&& v.name is None
            &&& v.sans.len() == 0
            &&& v.password.len() == 0
            &&& v.ca is None
            &&& v.user_id is None
            &&& v.renew_method == CertificateRenewMethod::NoRenewal
        }),
{
}

/// What `new` gives back is empty and starts at a time that the clock showed.
pub proof fn lemma_new_builder_starts_now(r: Result<TLSCertificateBuilder, CertError>)
    requires
        builder::new_result(r),
    ensures
        r matches Err(e) ==> e is Rcgen,
        r matches Ok(b) ==> {
            &&& clock::utc_clock_shows(b@.not_before as int)
            &&& b@.not_after is None
            &&& b@.name is None
            &&& b@.sans.len() == 0
            &&& b@.password.len() == 0
            &&& b@.ca is None
            &&& b@.user_id is None
            &&& b@.renew_method == CertificateRenewMethod::NoRenewal
        },
{
}

/// `set_ca` takes every authority for TLS, with its number, certificate and key, and no other.
pub proof fn lemma_authorities_for_tls_are_taken(
    v: BuilderView,
    ca: model::CAView,
    r: Result<TLSCertificateBuilder, CertError>,
)
    requires
        builder::authority_result(v, ca, r),
    ensures
        ca.ca_type == CAType::TLS <==> r is Ok,
        ca.ca_type != CAType::TLS <==> (r is Err && r->Err_0 is CaNotTls),
        r matches Ok(b) ==> b@.ca == Some((ca.id, ca.cert, ca.key)),
        r matches Ok(b) ==> (BuilderView { ca: v.ca, ..b@ }) == v,
{
}

/// `set_dns_san` takes every list of names in ASCII, puts all of them behind the alternative names
/// that are there, and changes nothing else. Any other list is refused.
pub proof fn lemma_ascii_names_are_taken(
    v: BuilderView,
    names: Seq<Seq<char>>,
    r: Result<TLSCertificateBuilder, CertError>,
)
    requires
        builder::dns_san_result(v, names, r),
    ensures
        r is Ok <==> forall|i: int|
            0 <= i < names.len() ==> vstd::utf8::is_ascii_chars(#[trigger] names[i]),
        r matches Err(e) ==> e is Rcgen,
        r matches Ok(b) ==> {
            &&& b@.sans.len() == v.sans.len() + names.len()
            &&& forall|i: int| 0 <= i < v.sans.len() ==> #[trigger] b@.sans[i] == v.sans[i]
            &&& forall|i: int|
                v.sans.len() <= i < b@.sans.len() ==> #[trigger] b@.sans[i] == SanView::Dns(
                    names[i - v.sans.len()],
                )
            &&& (BuilderView { sans: v.sans, ..b@ }) == v
        },
{
}

/// `set_email_san` takes every address in ASCII, puts it behind the alternative names that are
/// there, and changes nothing else. Any other address is refused.
pub proof fn lemma_ascii_email_is_taken(
    v: BuilderView,
    email: Seq<char>,
    r: Result<TLSCertificateBuilder, CertError>,
)
    requires
        builder::email_san_result(v, email, r),
    ensures
        r is Ok <==> vstd::utf8::is_ascii_chars(email),
        r matches Err(e) ==> e is Rcgen,
        r matches Ok(b) ==> {
            &&& b@.sans.len() == v.sans.len() + 1
            &&& forall|i: int| 0 <= i < v.sans.len() ==> #[trigger] b@.sans[i] == v.sans[i]
            &&& b@.sans[v.sans.len() as int] == SanView::Email(email)
            &&& (BuilderView { sans: v.sans, ..b@ }) == v
        },
{
}

/// Each setter sets what it is for.
pub proof fn lemma_setters_set(
    v: BuilderView,
    name: model::NameView,
    password: Seq<char>,
    ca: model::CAView,
    user_id: i64,
    renew_method: CertificateRenewMethod,
)
    ensures
        builder::named(v, name).name == Some(name),
        builder::locked_by(v, password).password == password,
        builder::under(v, ca).ca == Some((ca.id, ca.cert, ca.key)),
        builder::owned_by(v, user_id).user_id == Some(user_id),
        builder::renewed_by(v, renew_method).renew_method == renew_method,
{
}

/// No setter changes anything else: with its own thing as it was before, the builder is as it was
/// before.
pub proof fn lemma_setters_leave_the_rest(
    v: BuilderView,
    name: model::NameView,
    password: Seq<char>,
    names: Seq<Seq<char>>,
    email: Seq<char>,
    ca: model::CAView,
    user_id: i64,
    renew_method: CertificateRenewMethod,
)
    ensures
        (BuilderView { name: v.name, ..builder::named(v, name) }) == v,
        (BuilderView { password: v.password, ..builder::locked_by(v, password) }) == v,
        (BuilderView { sans: v.sans, ..builder::with_dns_names(v, names) }) == v,
        (BuilderView { sans: v.sans, ..builder::with_email(v, email) }) == v,
        (BuilderView { ca: v.ca, ..builder::under(v, ca) }) == v,
        (BuilderView { user_id: v.user_id, ..builder::owned_by(v, user_id) }) == v,
        (BuilderView { renew_method: v.renew_method, ..builder::renewed_by(v, renew_method) }) == v,
{
}

/// `set_dns_san` puts all of the names behind the alternative names that are there, in order and as
/// DNS names.
pub proof fn lemma_dns_names_are_added(v: BuilderView, names: Seq<Seq<char>>, i: int)
    ensures
        builder::with_dns_names(v, names).sans.len() == v.sans.len() + names.len(),
        0 <= i < v.sans.len() ==> builder::with_dns_names(v, names).sans[i] == v.sans[i],
        0 <= i < names.len() ==> builder::with_dns_names(v, names).sans[v.sans.len() + i]
            == SanView::Dns(names[i]),
{
}

/// `set_email_san` puts one address behind the alternative names that are there, and as an address.
pub proof fn lemma_email_is_added(v: BuilderView, email: Seq<char>, i: int)
    ensures
        builder::with_email(v, email).sans.len() == v.sans.len() + 1,
        0 <= i < v.sans.len() ==> builder::with_email(v, email).sans[i] == v.sans[i],
        builder::with_email(v, email).sans[v.sans.len() as int] == SanView::Email(email),
{
}

/// The DNS names in a builder are those that were put into it, one list behind the other. An email
/// address is none of them.
pub proof fn lemma_dns_names_are_kept(v: BuilderView, names: Seq<Seq<char>>, email: Seq<char>)
    ensures
        laws::dns_of(builder::with_dns_names(v, names).sans) == laws::dns_of(v.sans) + names,
        laws::dns_of(builder::with_email(v, email).sans) == laws::dns_of(v.sans),
    decreases names.len(),
{
    let all = builder::with_dns_names(v, names).sans;
    if names.len() == 0 {
        assert(all =~= v.sans);
        assert(laws::dns_of(v.sans) + names =~= laws::dns_of(v.sans));
    } else {
        let rest = names.drop_last();
        lemma_dns_names_are_kept(v, rest, email);
        assert(all.drop_last() =~= builder::with_dns_names(v, rest).sans);
        assert(all.last() == SanView::Dns(names.last()));
        assert((laws::dns_of(v.sans) + rest).push(names.last()) =~= laws::dns_of(v.sans) + names);
    }
    assert(builder::with_email(v, email).sans.drop_last() =~= v.sans);
    assert(builder::with_email(v, email).sans.last() == SanView::Email(email));
}

/// All of a list of names are ASCII if and only if each of them is.
pub proof fn lemma_names_are_judged_alone(names: Seq<Seq<char>>, name: Seq<char>)
    ensures
        builder::all_ascii(names.push(name)) <==> builder::all_ascii(names)
            && vstd::utf8::is_ascii_chars(name),
        builder::all_ascii(Seq::empty()),
{
    let all = names.push(name);
    assert(all[names.len() as int] == name);
    if builder::all_ascii(all) {
        assert(rcgen_api::is_ascii(all[names.len() as int]));
        assert forall|i: int| 0 <= i < names.len() implies rcgen_api::is_ascii(
            #[trigger] names[i],
        ) by {
            assert(all[i] == names[i]);
        }
    }
}

/// DNS names can be put into a certificate if and only if each has fewer than 2147483646 bytes of
/// UTF-8.
pub proof fn lemma_names_that_fit(dns_names: Seq<String>)
    ensures
        acme::names_fit(dns_names) <==> forall|i: int|
            0 <= i < dns_names.len() ==> vstd::utf8::encode_utf8((#[trigger] dns_names[i])@).len()
                < 2_147_483_646,
{
}

/// The DNS names of every certificate can be asked for, except of PEM whose length does not have 31
/// bits and of an archive with a NUL in its password.
pub proof fn lemma_certificate_can_be_asked(cert: Certificate)
    ensures
        cert.data is SshBundle ==> reading::is_readable(cert),
        cert.data matches CertData::Pem(bytes) ==> (reading::is_readable(cert) <==> bytes@.len()
            <= 2_147_483_647),
        cert.data is Pkcs12 ==> (reading::is_readable(cert) <==> forall|i: int|
            0 <= i < cert.password@.len() ==> #[trigger] cert.password@[i] != '\0'),
{
}

}
