//! What is in a certificate: what its key is for, whom it is for, and where it is revoked.
use vstd::prelude::*;

use crate::acme;
use crate::builder;
use crate::builder::BuilderView;
use crate::laws::terms;
use crate::laws::texts;
use crate::model;
use crate::model::CertError;
use crate::model::Certificate;
use crate::model::CertificateType;
use crate::model::DnAttribute;
use crate::model::CA;
use crate::openssl_api;
use crate::rcgen_api;
use crate::rcgen_api::Authority;
use crate::rcgen_api::ExtendedUse;
use crate::rcgen_api::KeyUse;

verus! {

/// The list holds these two and nothing else, each of them once.
pub open spec fn are_both<T>(list: Seq<T>, one: T, other: T) -> bool {
    &&& list.len() == 2
    &&& list.contains(one)
    &&& list.contains(other)
}

/// The value stands in the list at exactly one place.
pub open spec fn is_once_in<T>(list: Seq<T>, value: T) -> bool {
    exists|i: int|
        0 <= i < list.len() && #[trigger] list[i] == value && forall|j: int|
            0 <= j < list.len() && #[trigger] list[j] == value ==> j == i
}

/// The parameters have the subject, the validity, the serial number and the alternative names of a
/// builder. The subject has the common name, and behind it the organizational unit if there is one.
pub open spec fn has_builder_content(params: rcgen_api::ParamsView, v: BuilderView) -> bool {
    &&& v.name matches Some(name) && {
        &&& params.subject.len() == if name.ou is Some {
            2int
        } else {
            1
        }
        &&& params.subject[0] == (DnAttribute::CommonName, name.cn)
        &&& name.ou matches Some(ou) ==> params.subject[1] == (DnAttribute::OrganizationalUnit, ou)
    }
    &&& v.not_after matches Some(end) && params.not_after == end
    &&& params.not_before == v.not_before
    &&& params.serial == Some(v.serial)
    &&& params.sans.len() == v.sans.len()
    &&& forall|i: int| 0 <= i < v.sans.len() ==> #[trigger] params.sans[i] == v.sans[i]
}

/// The certificate that `build_ca` makes signs itself and is one of an authority whose chains may
/// have any length. Its key may sign certificates and revocation lists and is for nothing else,
/// whatever the name, the validity and the alternative names are. It says nothing of whom it is for
/// or of a revocation list.
pub proof fn lemma_authority_signs_certificates_and_lists(v: BuilderView, r: Result<CA, CertError>)
    requires
        builder::ca_result(v, r),
        r is Ok,
    ensures
        exists|params: rcgen_api::ParamsView|
            {
                &&& #[trigger] rcgen_api::rcgen_self_signed(params, v.key, (r->Ok_0)@.cert)
                &&& params.authority == Authority::Unconstrained
                &&& are_both(params.key_uses, KeyUse::CertSign, KeyUse::CrlSign)
                &&& params.extended_uses.len() == 0
                &&& params.crl_points.len() == 0
                &&& has_builder_content(params, v)
            },
{
    let params = builder::ca_params(v);
    assert(rcgen_api::rcgen_self_signed(params, v.key, (r->Ok_0)@.cert));
    assert(params.key_uses[0] == KeyUse::CertSign);
    assert(params.key_uses[1] == KeyUse::CrlSign);
}

/// The parameters are those of a certificate for clients or servers under the authority with this
/// number: it is not one of an authority, and its key may sign and encipher keys and is for nothing
/// else. With a base for addresses there is one place where the revocation list is, with one
/// address: the base, `/crl/crl-`, the number of the authority in decimal, and `.crl`. Without a
/// base there is none.
pub open spec fn is_leaf_content(
    params: rcgen_api::ParamsView,
    ca_id: i64,
    crl_base: Option<Seq<char>>,
) -> bool {
    &&& params.authority == Authority::No
    &&& are_both(params.key_uses, KeyUse::DigitalSignature, KeyUse::KeyEncipherment)
    &&& crl_base is None ==> params.crl_points.len() == 0
    &&& crl_base matches Some(base) ==> {
        &&& params.crl_points.len() == 1
        &&& params.crl_points[0].len() == 1
        &&& texts::is_list_address(params.crl_points[0][0], base, ca_id as int)
    }
}

/// The parameters say that the certificate is for these, or nothing of whom it is for.
pub open spec fn is_for(params: rcgen_api::ParamsView, extended_use: Option<ExtendedUse>) -> bool {
    match extended_use {
        Some(extended_use) => params.extended_uses.len() == 1 && params.extended_uses[0]
            == extended_use,
        None => params.extended_uses.len() == 0,
    }
}

/// The certificate was signed by the builder's authority with such parameters for the builder's
/// key, and lies with that key and the authority's certificate in the archive, under the builder's
/// common name and password.
pub open spec fn is_signed_leaf(
    v: BuilderView,
    extended_use: Option<ExtendedUse>,
    crl_base: Option<Seq<char>>,
    p12: Seq<u8>,
) -> bool {
    &&& v.ca matches Some((ca_id, ca_cert, ca_key))
    &&& v.name matches Some(name)
    &&& exists|params: rcgen_api::ParamsView, der: Seq<u8>|
        {
            &&& #[trigger] rcgen_api::rcgen_signed(params, v.key, ca_cert, ca_key, der)
            &&& is_leaf_content(params, ca_id, crl_base)
            &&& is_for(params, extended_use)
            &&& has_builder_content(params, v)
            &&& openssl_api::pkcs12_built(name.cn, ca_cert, der, v.key, v.password, p12)
        }
}

/// What is in a certificate that was built under an authority, whatever its name, validity and
/// alternative names are.
proof fn lemma_leaf_content(
    v: BuilderView,
    certificate_type: CertificateType,
    extended_use: Option<ExtendedUse>,
    crl_base: Option<Seq<char>>,
    r: Result<Certificate, CertError>,
)
    requires
        builder::leaf_result(v, certificate_type, extended_use, crl_base, r),
        r is Ok,
    ensures
        (r->Ok_0)@.certificate_type == certificate_type,
        (r->Ok_0)@.data matches model::CertDataView::Pkcs12(p12) && is_signed_leaf(
            v,
            extended_use,
            crl_base,
            p12,
        ),
{
    let cert = (r->Ok_0)@;
    let (p12, der) = choose|p12: Seq<u8>, der: Seq<u8>|
        cert == builder::leaf_record(v, certificate_type, p12) && #[trigger] builder::is_archive_of(
            v,
            extended_use,
            crl_base,
            p12,
            der,
        );
    assert(builder::is_archive_of(v, extended_use, crl_base, p12, der));
    let (ca_id, ca_cert, ca_key) = v.ca->0;
    let params = builder::leaf_params(v, extended_use, crl_base);
    assert(rcgen_api::rcgen_signed(params, v.key, ca_cert, ca_key, der));
    assert(params.key_uses[0] == KeyUse::DigitalSignature);
    assert(params.key_uses[1] == KeyUse::KeyEncipherment);
    if let Some(base) = crl_base {
        texts::lemma_list_address(base, ca_id);
    }
}

/// A certificate that `build_client` makes is for clients and for nobody else.
pub proof fn lemma_client_certificate_is_for_clients(
    v: BuilderView,
    crl_base: Option<Seq<char>>,
    r: Result<Certificate, CertError>,
)
    requires
        builder::client_result(v, crl_base, r),
        r is Ok,
    ensures
        (r->Ok_0)@.certificate_type == CertificateType::TLSClient,
        (r->Ok_0)@.data matches model::CertDataView::Pkcs12(p12) && is_signed_leaf(
            v,
            Some(ExtendedUse::ClientAuth),
            crl_base,
            p12,
        ),
{
    lemma_leaf_content(
        v,
        CertificateType::TLSClient,
        Some(ExtendedUse::ClientAuth),
        crl_base,
        r,
    );
}

/// A certificate that `build_server` makes is for servers and for nobody else.
pub proof fn lemma_server_certificate_is_for_servers(
    v: BuilderView,
    crl_base: Option<Seq<char>>,
    r: Result<Certificate, CertError>,
)
    requires
        builder::server_result(v, crl_base, r),
        r is Ok,
    ensures
        (r->Ok_0)@.certificate_type == CertificateType::TLSServer,
        (r->Ok_0)@.data matches model::CertDataView::Pkcs12(p12) && is_signed_leaf(
            v,
            Some(ExtendedUse::ServerAuth),
            crl_base,
            p12,
        ),
{
    lemma_leaf_content(
        v,
        CertificateType::TLSServer,
        Some(ExtendedUse::ServerAuth),
        crl_base,
        r,
    );
}

/// A certificate that `build_common` makes has the type that was asked for, and does not say whom
/// it is for.
pub proof fn lemma_common_certificate_is_for_nobody(
    v: BuilderView,
    certificate_type: CertificateType,
    crl_base: Option<Seq<char>>,
    r: Result<Certificate, CertError>,
)
    requires
        builder::common_result(v, certificate_type, crl_base, r),
        r is Ok,
    ensures
        (r->Ok_0)@.certificate_type == certificate_type,
        (r->Ok_0)@.data matches model::CertDataView::Pkcs12(p12) && is_signed_leaf(
            v,
            None,
            crl_base,
            p12,
        ),
{
    lemma_leaf_content(v, certificate_type, None, crl_base, r);
}

/// Builders whose authorities have the same number get the same uses, the same authority flag and
/// the same addresses of revocation lists, whatever else differs between them.
pub proof fn lemma_uses_do_not_depend_on_the_builder(
    one: BuilderView,
    other: BuilderView,
    extended_use: Option<ExtendedUse>,
    crl_base: Option<Seq<char>>,
)
    requires
        (one.ca->0).0 == (other.ca->0).0,
    ensures
        builder::leaf_params(one, extended_use, crl_base).crl_points == builder::leaf_params(
            other,
            extended_use,
            crl_base,
        ).crl_points,
        builder::leaf_params(one, extended_use, crl_base).key_uses == builder::leaf_params(
            other,
            extended_use,
            crl_base,
        ).key_uses,
        builder::leaf_params(one, extended_use, crl_base).extended_uses == builder::leaf_params(
            other,
            extended_use,
            crl_base,
        ).extended_uses,
        builder::leaf_params(one, extended_use, crl_base).authority == builder::leaf_params(
            other,
            extended_use,
            crl_base,
        ).authority,
        builder::ca_params(one).key_uses == builder::ca_params(other).key_uses,
        builder::ca_params(one).authority == builder::ca_params(other).authority,
{
}

/// The extensions of a server certificate under an authority for these DNS names. For every list of
/// names it says that it is for servers, that it is not one of an authority, that its key signs and
/// enciphers keys, and which keys it and the authority have, each of it once. Only the alternative
/// names depend on the list: they are there once, and only if it is not empty. There is nothing
/// else.
pub open spec fn are_server_extensions(
    extensions: Seq<openssl_api::Extension>,
    ca_cert: Seq<u8>,
    dns_names: Seq<Seq<char>>,
) -> bool {
    &&& is_once_in(extensions, openssl_api::Extension::ServerAuth)
    &&& is_once_in(extensions, openssl_api::Extension::NotAuthority)
    &&& is_once_in(extensions, openssl_api::Extension::SignAndEncipher)
    &&& is_once_in(extensions, openssl_api::Extension::SubjectKeyIdentifier)
    &&& is_once_in(extensions, openssl_api::Extension::AuthorityKeyIdentifier(ca_cert))
    &&& dns_names.len() > 0 ==> is_once_in(
        extensions,
        openssl_api::Extension::SubjectAltName(dns_names),
    )
    &&& extensions.len() == if dns_names.len() > 0 {
        6int
    } else {
        5
    }
}

/// The certificate for a signing request was signed by the authority's key, has the authority's
/// subject as its issuer, and is for this public key and these DNS names. The first of them, or
/// `acme` without any, is its common name, and `ACME` its organizational unit.
pub open spec fn are_answer_fields(
    fields: openssl_api::X509Fields,
    public_key: Seq<u8>,
    ca_cert: Seq<u8>,
    ca_key: Seq<u8>,
    serial: Seq<u8>,
    dns_names: Seq<Seq<char>>,
) -> bool {
    &&& fields.version == Some(2int)
    &&& fields.serial == Some(serial)
    &&& fields.public_key == Some(public_key)
    &&& fields.issuer == Some(ca_cert)
    &&& fields.signer == Some(ca_key)
    &&& fields.subject matches Some(subject) && {
        &&& subject.len() == 2
        &&& subject[0].0 == "CN"@
        &&& dns_names.len() > 0 ==> subject[0].1 == dns_names[0]
        &&& dns_names.len() == 0 ==> subject[0].1 == "acme"@
        &&& subject[1] == ("OU"@, "ACME"@)
    }
    &&& are_server_extensions(fields.extensions, ca_cert, dns_names)
}

/// A value that stands at one place and at no other.
proof fn lemma_once_at<T>(list: Seq<T>, i: int)
    requires
        0 <= i < list.len(),
        forall|j: int| 0 <= j < list.len() && j != i ==> #[trigger] list[j] != list[i],
    ensures
        is_once_in(list, list[i]),
{
}

/// The extensions of a certificate for a signing request.
proof fn lemma_issued_extensions(ca_cert: Seq<u8>, dns_names: Seq<Seq<char>>)
    ensures
        are_server_extensions(
            acme::issued_extensions(ca_cert, dns_names),
            ca_cert,
            dns_names,
        ),
{
    let extensions = acme::issued_extensions(ca_cert, dns_names);
    let first: int = if dns_names.len() > 0 {
        1
    } else {
        0
    };
    assert(extensions.len() == first + 5);
    assert(first == 1 ==> extensions[0] == openssl_api::Extension::SubjectAltName(dns_names));
    assert(extensions[first] == openssl_api::Extension::ServerAuth);
    assert(extensions[first + 1] == openssl_api::Extension::NotAuthority);
    assert(extensions[first + 2] == openssl_api::Extension::SignAndEncipher);
    assert(extensions[first + 3] == openssl_api::Extension::SubjectKeyIdentifier);
    assert(extensions[first + 4] == openssl_api::Extension::AuthorityKeyIdentifier(ca_cert));
    assert forall|i: int, j: int|
        0 <= i < extensions.len() && 0 <= j < extensions.len() && i
            != j implies #[trigger] extensions[j] != #[trigger] extensions[i] by {
        assert(i - first == -1 || i == first || i == first + 1 || i == first + 2 || i == first + 3
            || i == first + 4);
        assert(j - first == -1 || j == first || j == first + 1 || j == first + 2 || j == first + 3
            || j == first + 4);
    }
    if first == 1 {
        lemma_once_at(extensions, 0);
    }
    lemma_once_at(extensions, first);
    lemma_once_at(extensions, first + 1);
    lemma_once_at(extensions, first + 2);
    lemma_once_at(extensions, first + 3);
    lemma_once_at(extensions, first + 4);
}

/// What goes into a certificate for a signing request.
proof fn lemma_issued_fields(
    public_key: Seq<u8>,
    ca_cert: Seq<u8>,
    ca_key: Seq<u8>,
    serial: Seq<u8>,
    not_before: int,
    not_after: int,
    dns_names: Seq<Seq<char>>,
)
    ensures
        are_answer_fields(
            acme::issued_fields(
                public_key,
                ca_cert,
                ca_key,
                serial,
                not_before,
                not_after,
                dns_names,
            ),
            public_key,
            ca_cert,
            ca_key,
            serial,
            dns_names,
        ),
{
    lemma_issued_extensions(ca_cert, dns_names);
}

/// The certificate that `issue_at` gives is one for servers, for this key and these DNS names, by
/// this authority.
pub proof fn lemma_issued_certificate_is_for_servers(
    public_key: Seq<u8>,
    ca_cert: Seq<u8>,
    ca_key: Seq<u8>,
    serial: Seq<u8>,
    start: int,
    end: int,
    validity_days: u64,
    dns_names: Seq<Seq<char>>,
    r: Result<Vec<u8>, CertError>,
)
    requires
        acme::issue_at_result(
            public_key,
            ca_cert,
            ca_key,
            serial,
            start,
            end,
            validity_days,
            dns_names,
            r,
        ),
        r is Ok,
    ensures
        exists|fields: openssl_api::X509Fields| #[trigger]
            openssl_api::x509_built(fields, (r->Ok_0)@) && are_answer_fields(
                fields,
                public_key,
                ca_cert,
                ca_key,
                serial,
                dns_names,
            ),
{
    let not_before = crate::clock::span_end_seconds(start, 0, model::TimespanUnit::Hour);
    let not_after = crate::clock::span_end_seconds(end, validity_days, model::TimespanUnit::Day);
    lemma_issued_fields(
        public_key,
        ca_cert,
        ca_key,
        serial,
        not_before,
        not_after,
        dns_names,
    );
    let fields = acme::issued_fields(
        public_key,
        ca_cert,
        ca_key,
        serial,
        not_before,
        not_after,
        dns_names,
    );
    assert(openssl_api::x509_built(fields, (r->Ok_0)@));
}

/// The certificate that `issue_cert_from_csr` gives is a server certificate for the public key of
/// the request and these DNS names, signed by the authority. Its serial number is the one that is
/// given with it, of eight bytes at most and without a leading zero. The chain is the certificate
/// and the authority's behind it.
pub proof fn lemma_answer_is_a_server_certificate(
    csr: Seq<u8>,
    ca: model::CAView,
    validity_days: u64,
    dns_names: Seq<Seq<char>>,
    issued: Result<(Vec<u8>, Vec<u8>, Vec<u8>), CertError>,
)
    requires
        acme::issue_result(csr, ca, validity_days, dns_names, issued),
        issued is Ok,
    ensures
        openssl_api::csr_verdict(csr, true),
        ({
            let (cert_pem, chain_pem, serial) = issued->Ok_0;
            &&& serial@.len() <= 8
            &&& serial@.len() > 0 ==> serial@[0] != 0
            &&& exists|fields: openssl_api::X509Fields, der: Seq<u8>, ca_pem: Seq<u8>|
                {
                    &&& #[trigger] openssl_api::x509_built(fields, der)
                    &&& openssl_api::x509_pem(der) == Some(cert_pem@)
                    &&& #[trigger] openssl_api::is_pem_of(ca.cert, ca_pem)
                    &&& openssl_api::x509_pem(ca.cert) == Some(ca_pem)
                    &&& chain_pem@ == cert_pem@ + ca_pem
                    &&& are_answer_fields(
                        fields,
                        openssl_api::csr_public_key(csr),
                        ca.cert,
                        ca.key,
                        serial@,
                        dns_names,
                    )
                }
        }),
{
    let (cert_pem, chain_pem, serial) = issued->Ok_0;
    let (der, ca_pem) = choose|der: Seq<u8>, ca_pem: Seq<u8>|
        {
            &&& #[trigger] openssl_api::is_pem_of(der, cert_pem@)
            &&& #[trigger] openssl_api::is_pem_of(ca.cert, ca_pem)
            &&& acme::is_answer(csr, ca, validity_days, dns_names, serial@, der)
            &&& acme::issued_readings(der, serial@, dns_names)
            &&& chain_pem@ == cert_pem@ + ca_pem
            &&& openssl_api::is_minimal(serial@) && serial@.len() <= 8
        };
    let public_key = openssl_api::csr_public_key(csr);
    let (start, end) = choose|start: int, end: int|
        {
            &&& #[trigger] crate::clock::system_clock_shows(start)
            &&& #[trigger] crate::clock::system_clock_shows(end)
            &&& acme::is_issued_at(
                public_key,
                ca.cert,
                ca.key,
                serial@,
                start,
                end,
                validity_days,
                dns_names,
                der,
            )
        };
    let not_before = crate::clock::span_end_seconds(start, 0, model::TimespanUnit::Hour);
    let not_after = crate::clock::span_end_seconds(end, validity_days, model::TimespanUnit::Day);
    lemma_issued_fields(
        public_key,
        ca.cert,
        ca.key,
        serial@,
        not_before,
        not_after,
        dns_names,
    );
    let fields = acme::issued_fields(
        public_key,
        ca.cert,
        ca.key,
        serial@,
        not_before,
        not_after,
        dns_names,
    );
    assert(openssl_api::x509_built(fields, der));
}

/// Why `issue_cert_from_csr` gives no certificate. The signature of a readable request did not
/// verify; or the request was accepted and the clock showed a time from which the days cannot be
/// counted, or one before 1970; or `openssl` failed.
pub proof fn lemma_refusals_have_a_reason(
    csr: Seq<u8>,
    ca: model::CAView,
    validity_days: u64,
    dns_names: Seq<Seq<char>>,
    issued: Result<(Vec<u8>, Vec<u8>, Vec<u8>), CertError>,
)
    requires
        acme::issue_result(csr, ca, validity_days, dns_names, issued),
    ensures
        issued matches Err(e) ==> e is CsrSignature || e is TimeOutOfRange || e is ClockBeforeEpoch
            || e is OpenSsl,
        issued is Err && issued->Err_0 is CsrSignature ==> openssl_api::csr_readable(csr)
            && openssl_api::csr_verdict(csr, false),
        issued is Ok || issued->Err_0 is TimeOutOfRange || issued->Err_0 is ClockBeforeEpoch
            ==> openssl_api::csr_readable(csr) && openssl_api::csr_verdict(csr, true)
            && openssl_api::x509_readable(ca.cert) && openssl_api::private_key_readable(ca.key),
        issued is Err && issued->Err_0 is TimeOutOfRange ==> validity_days * 86_400 > u64::MAX
            || exists|now: int| #[trigger]
            crate::clock::system_clock_shows(now) && now + validity_days * 86_400_000_000_000
                >= 9_223_372_036_854_775_808_000_000_000,
        issued is Err && issued->Err_0 is ClockBeforeEpoch ==> exists|now: int| #[trigger]
            crate::clock::system_clock_shows(now) && now < 0,
        validity_days * 86_400 > u64::MAX ==> issued is Err,
{
    terms::lemma_span_ends_exactly(
        0,
        validity_days,
        model::TimespanUnit::Day,
        validity_days * 86_400,
    );
    assert forall|now: int| #[trigger] crate::clock::system_clock_shows(now) implies {
        &&& crate::clock::span_end(now, validity_days, model::TimespanUnit::Day) == now
            + validity_days * 86_400_000_000_000
        &&& crate::clock::span_end(now, 0, model::TimespanUnit::Hour) == now
        &&& crate::clock::span_seconds(0, model::TimespanUnit::Hour) == 0
        &&& crate::clock::span_seconds(validity_days, model::TimespanUnit::Day) == validity_days
            * 86_400
    } by {
        terms::lemma_span_ends_exactly(
            now,
            validity_days,
            model::TimespanUnit::Day,
            validity_days * 86_400,
        );
        terms::lemma_span_ends_exactly(now, 0, model::TimespanUnit::Hour, 0);
    }
}

/// What a certificate for a signing request says besides the alternative names does not depend on
/// the DNS names: behind them stand the same extensions for every two lists.
pub proof fn lemma_only_the_names_depend_on_the_names(
    ca_cert: Seq<u8>,
    one: Seq<Seq<char>>,
    other: Seq<Seq<char>>,
    i: int,
)
    requires
        one.len() > 0,
        other.len() > 0,
        1 <= i < acme::issued_extensions(ca_cert, one).len(),
    ensures
        acme::issued_extensions(ca_cert, one).len() == acme::issued_extensions(
            ca_cert,
            other,
        ).len(),
        acme::issued_extensions(ca_cert, one)[i] == acme::issued_extensions(ca_cert, other)[i],
        acme::issued_extensions(ca_cert, one)[i] == acme::issued_extensions(
            ca_cert,
            Seq::empty(),
        )[i - 1],
{
}

/// What a certificate for a signing request gives back when it is read: its common name is the
/// first DNS name, or `acme` without any, its organizational unit `ACME`, and its alternative names
/// are the DNS names, in order.
pub proof fn lemma_answer_reads_as_asked_for(
    csr: Seq<u8>,
    ca: model::CAView,
    validity_days: u64,
    dns_names: Seq<Seq<char>>,
    serial: Seq<u8>,
    der: Seq<u8>,
)
    requires
        acme::is_answer(csr, ca, validity_days, dns_names, serial, der),
    ensures
        dns_names.len() > 0 ==> openssl_api::x509_subject_text(der, DnAttribute::CommonName)
            == Some(Some(dns_names[0])),
        dns_names.len() == 0 ==> openssl_api::x509_subject_text(der, DnAttribute::CommonName)
            == Some(Some("acme"@)),
        openssl_api::x509_subject_text(der, DnAttribute::OrganizationalUnit) == Some(
            Some("ACME"@),
        ),
        dns_names.len() == 0 ==> openssl_api::x509_san(der) is None,
        dns_names.len() > 0 ==> (openssl_api::x509_san(der) matches Some(read) && {
            &&& read.len() == dns_names.len()
            &&& forall|i: int| 0 <= i < read.len() ==> #[trigger] read[i] == Some(dns_names[i])
        }),
{
}

}
