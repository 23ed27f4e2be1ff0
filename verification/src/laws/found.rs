//! What is read in certificates, whoever made them.
use vstd::prelude::*;

use crate::model;
use crate::model::CAType;
use crate::model::CertError;
use crate::model::DataFormat;
use crate::model::DnAttribute;
use crate::model::Name;
use crate::model::CA;
use crate::openssl_api;
use crate::reading;
use crate::x509_api;

verus! {

/// The places go upwards.
pub open spec fn is_rising(places: Seq<int>) -> bool {
    forall|i: int, j: int|
        0 <= i < j < places.len() ==> #[trigger] places[i] < #[trigger] places[j]
}

/// At these places of the list stand the kept texts, and at all others there is none.
pub open spec fn are_places_of(
    places: Seq<int>,
    kept: Seq<Seq<char>>,
    list: Seq<Option<Seq<char>>>,
) -> bool {
    &&& places.len() == kept.len()
    &&& is_rising(places)
    &&& forall|i: int|
        0 <= i < places.len() ==> 0 <= #[trigger] places[i] < list.len() && list[places[i]] == Some(
            kept[i],
        )
    &&& forall|j: int|
        0 <= j < list.len() && (#[trigger] list[j]) is Some ==> places.contains(j)
}

/// The kept texts are all of those that are in the list, in the same order and as often.
pub open spec fn are_all_in_order(kept: Seq<Seq<char>>, list: Seq<Option<Seq<char>>>) -> bool {
    exists|places: Seq<int>| are_places_of(places, kept, list)
}

/// What `kept_names` keeps of a list is every text in it, in order.
pub proof fn lemma_every_text_is_kept(list: Seq<Option<Seq<char>>>)
    ensures
        are_all_in_order(reading::kept_texts(list), list),
    decreases list.len(),
{
    let kept = reading::kept_texts(list);
    if list.len() == 0 {
        assert(are_places_of(Seq::<int>::empty(), kept, list));
    } else {
        let rest = list.drop_last();
        lemma_every_text_is_kept(rest);
        let before = reading::kept_texts(rest);
        let places = choose|places: Seq<int>| are_places_of(places, before, rest);
        let last = list.len() - 1;
        match list.last() {
            Some(text) => {
                let more = places.push(last);
                assert(kept =~= before.push(text));
                assert forall|j: int|
                    0 <= j < list.len() && (#[trigger] list[j]) is Some implies more.contains(
                    j,
                ) by {
                    if j == last {
                        assert(more[places.len() as int] == j);
                    } else {
                        assert(rest[j] is Some);
                        let i = choose|i: int| 0 <= i < places.len() && places[i] == j;
                        assert(more[i] == j);
                    }
                }
                assert forall|i: int| 0 <= i < more.len() implies 0 <= #[trigger] more[i]
                    < list.len() && list[more[i]] == Some(kept[i]) by {
                    if i < places.len() {
                        assert(more[i] == places[i]);
                        assert(rest[places[i]] == Some(before[i]));
                    }
                }
                assert(are_places_of(more, kept, list));
            },
            None => {
                assert forall|j: int|
                    0 <= j < list.len() && (#[trigger] list[j]) is Some implies places.contains(
                    j,
                ) by {
                    assert(rest[j] is Some);
                }
                assert forall|i: int| 0 <= i < places.len() implies 0 <= #[trigger] places[i]
                    < list.len() && list[places[i]] == Some(kept[i]) by {
                    assert(rest[places[i]] == Some(before[i]));
                }
                assert(are_places_of(places, kept, list));
            },
        }
    }
}

/// The DNS names that `get_dns_names` reads in PEM are all that are among the alternative names of
/// the first certificate in it, in order. Without alternative names there are none, and that is no
/// error.
pub proof fn lemma_dns_names_in_pem(
    pem: Seq<u8>,
    der: Seq<u8>,
    password: Seq<char>,
    r: Result<Vec<String>, CertError>,
)
    requires
        reading::dns_names_result(model::CertDataView::Pem(pem), password, r),
        !openssl_api::is_encrypted_pem(pem),
        openssl_api::x509_pem_der(pem) == Some(der),
    ensures
        r is Ok,
        openssl_api::x509_san(der) matches Some(list) ==> are_all_in_order(
            model::texts((r->Ok_0)@),
            list,
        ),
        openssl_api::x509_san(der) is None ==> (r->Ok_0)@.len() == 0,
{
    if let Some(list) = openssl_api::x509_san(der) {
        lemma_every_text_is_kept(list);
    } else {
        assert(model::texts((r->Ok_0)@).len() == 0);
    }
}

/// The DNS names that `names_of` reads in the certificate of an archive are all that are among its
/// alternative names, in order. No certificate, one that cannot be read, and one without
/// alternative names are errors, each its own.
pub proof fn lemma_dns_names_in_an_archive(
    found: Option<Seq<u8>>,
    r: Result<Vec<String>, CertError>,
)
    requires
        reading::found_names_result(found, r),
    ensures
        found is None <==> (r is Err && r->Err_0 is NoArchiveCertificate),
        found matches Some(der) ==> {
            &&& !openssl_api::x509_readable(der) <==> (r is Err && r->Err_0 is OpenSsl)
            &&& openssl_api::x509_readable(der) && openssl_api::x509_san(der) is None <==> (r is Err
                && r->Err_0 is NoArchiveSan)
            &&& openssl_api::x509_readable(der) ==> (openssl_api::x509_san(der) matches Some(list)
                ==> r is Ok && are_all_in_order(model::texts((r->Ok_0)@), list))
        },
{
    if let Some(der) = found {
        if let Some(list) = openssl_api::x509_san(der) {
            lemma_every_text_is_kept(list);
        }
    }
}

/// A text is taken for an encrypted one only if it holds the ten letters of `Proc-Type:`.
pub proof fn lemma_plain_text_is_not_encrypted(pem: Seq<u8>)
    requires
        forall|i: int|
            0 <= i <= pem.len() - 10 ==> !({
                &&& #[trigger] pem[i] == 80
                &&& pem[i + 1] == 114
                &&& pem[i + 2] == 111
                &&& pem[i + 3] == 99
                &&& pem[i + 4] == 45
                &&& pem[i + 5] == 84
                &&& pem[i + 6] == 121
                &&& pem[i + 7] == 112
                &&& pem[i + 8] == 101
                &&& pem[i + 9] == 58
            }),
    ensures
        !openssl_api::is_encrypted_pem(pem),
{
    assert forall|i: int| 0 <= i <= pem.len() - 10 implies (#[trigger] pem.subrange(i, i + 10))
        != openssl_api::proc_type() by {
        let part = pem.subrange(i, i + 10);
        assert(part[0] == pem[i] && part[1] == pem[i + 1] && part[2] == pem[i + 2]);
        assert(part[3] == pem[i + 3] && part[4] == pem[i + 4] && part[5] == pem[i + 5]);
        assert(part[6] == pem[i + 6] && part[7] == pem[i + 7] && part[8] == pem[i + 8]);
        assert(part[9] == pem[i + 9]);
    }
}

/// What `get_tls_pem` writes is the PEM of the authority's certificate, from which both readers of
/// PEM read the certificate back. Every certificate that can be read and has fewer than 2^30 bytes
/// is written.
pub proof fn lemma_authority_is_written(cert: Seq<u8>, r: Result<Vec<u8>, CertError>)
    requires
        reading::tls_pem_result(cert, r),
    ensures
        openssl_api::x509_readable(cert) && cert.len() < 1_073_741_824 ==> r is Ok,
        r matches Err(e) ==> e is OpenSsl,
        r matches Ok(pem) ==> {
            &&& openssl_api::x509_pem(cert) == Some(pem@)
            &&& openssl_api::x509_pem_der(pem@) == openssl_api::x509_der(cert)
            &&& x509_api::x509_parser_pem(pem@) == openssl_api::x509_der(cert)
        },
{
    if let Ok(pem) = r {
        let text = pem@;
        let nothing = Seq::<u8>::empty();
        assert(text + nothing =~= text);
        assert(openssl_api::x509_pem_der(text + nothing) == openssl_api::x509_der(cert));
        assert(x509_api::x509_parser_pem(text + nothing) == openssl_api::x509_der(cert));
    }
}

/// An SSH bundle has no DNS names, and text that is no PEM is an error of `openssl`.
pub proof fn lemma_dns_names_elsewhere(
    bundle: Seq<u8>,
    pem: Seq<u8>,
    password: Seq<char>,
    of_bundle: Result<Vec<String>, CertError>,
    of_pem: Result<Vec<String>, CertError>,
)
    requires
        reading::dns_names_result(model::CertDataView::SshBundle(bundle), password, of_bundle),
        reading::dns_names_result(model::CertDataView::Pem(pem), password, of_pem),
        !openssl_api::is_encrypted_pem(pem),
        openssl_api::x509_pem_der(pem) is None,
    ensures
        of_bundle is Ok && (of_bundle->Ok_0)@.len() == 0,
        of_pem is Err && of_pem->Err_0 is OpenSsl,
{
}

/// What `parse_ca` makes of a certificate and a key in DER: an authority for TLS that is not stored
/// yet, with the first common name and the first organizational unit, both ends of the validity in
/// milliseconds, and the bytes and the number that were handed in. Without a text for the common
/// name, and without a certificate, there is an error of its own.
pub proof fn lemma_authority_in_der(
    cert_der: Seq<u8>,
    key_der: Seq<u8>,
    crl_number: i64,
    r: Result<CA, CertError>,
)
    requires
        reading::parse_ca_result(cert_der, key_der, DataFormat::DER, crl_number, r),
    ensures
        x509_api::x509_parser_certificate(cert_der) is None <==> (r is Err
            && r->Err_0 is CaDerParse),
        x509_api::x509_parser_certificate(cert_der) matches Some(parsed) ==> {
            let is_named = parsed.common_names.len() > 0 && parsed.common_names[0] is Some;
            &&& !is_named <==> (r is Err && r->Err_0 is NoCaCommonName)
            &&& is_named <==> r is Ok
            &&& r matches Ok(ca) ==> {
                &&& ca@.id == -1
                &&& parsed.common_names[0] == Some(ca@.name.cn)
                &&& parsed.units.len() == 0 ==> ca@.name.ou is None
                &&& parsed.units.len() > 0 ==> ca@.name.ou == parsed.units[0]
                &&& ca@.created_on == parsed.not_before * 1000
                &&& ca@.valid_until == parsed.not_after * 1000
                &&& ca@.ca_type == CAType::TLS
                &&& ca@.cert == cert_der
                &&& ca@.key == key_der
                &&& ca@.crl_number == crl_number
            }
        },
{
}

/// What `parse_ca` says of PEM that cannot be read: the certificate is looked at before the key.
pub proof fn lemma_authority_in_broken_pem(
    cert_pem: Seq<u8>,
    key_pem: Seq<u8>,
    crl_number: i64,
    r: Result<CA, CertError>,
)
    requires
        reading::parse_ca_result(cert_pem, key_pem, DataFormat::PEM, crl_number, r),
    ensures
        x509_api::x509_parser_pem(cert_pem) is None <==> (r is Err && r->Err_0 is CaCertPemParse),
        x509_api::x509_parser_pem(cert_pem) is Some && x509_api::x509_parser_pem(key_pem) is None
            <==> (r is Err && r->Err_0 is CaKeyPemParse),
{
}

/// What `metadata_of` makes of a certificate: its common name, its organizational unit if that can
/// be read, and both ends of its validity in milliseconds since 1970, out of the days and seconds
/// by which they lie after it. No certificate, none that can be read, no common name and times
/// that cannot be read are errors.
pub proof fn lemma_metadata_of_a_certificate(
    found: Option<Seq<u8>>,
    r: Result<(Name, i64, i64), CertError>,
)
    requires
        reading::found_metadata_result(found, r),
    ensures
        found is None <==> (r is Err && r->Err_0 is NoMetadataCertificate),
        found matches Some(der) ==> {
            let cn = openssl_api::x509_subject_text(der, DnAttribute::CommonName);
            let ou = openssl_api::x509_subject_text(der, DnAttribute::OrganizationalUnit);
            let start = openssl_api::x509_not_before(der, 0);
            let end = openssl_api::x509_not_after(der, 0);
            let is_whole = openssl_api::x509_readable(der) && cn is Some && cn->0 is Some
                && start is Some && end is Some;
            &&& openssl_api::x509_readable(der) && cn is None <==> (r is Err
                && r->Err_0 is NoCommonName)
            &&& is_whole <==> r is Ok
            &&& r matches Err(e) ==> e is NoCommonName || e is OpenSsl
            &&& r matches Ok((name, created_on, valid_until)) ==> {
                &&& cn == Some(Some(name@.cn))
                &&& ou is None || ou == Some(None::<Seq<char>>) ==> name@.ou is None
                &&& ou matches Some(Some(unit)) ==> name@.ou == Some(unit)
                &&& created_on == (start->0).0 * 86_400_000 + (start->0).1 * 1000
                &&& valid_until == (end->0).0 * 86_400_000 + (end->0).1 * 1000
            }
        },
{
}

/// The serial number that `extract_pem_serial_number` reads is that of the first block of the text
/// as `x509-parser` reads it. No block, and no certificate in it, are errors, each its own.
pub proof fn lemma_serial_in_pem(pem: Seq<u8>, r: Result<Vec<u8>, CertError>)
    requires
        reading::pem_serial_result(pem, r),
    ensures
        x509_api::x509_parser_pem(pem) is None <==> (r is Err && r->Err_0 is PemParse),
        x509_api::x509_parser_pem(pem) matches Some(der) ==> {
            &&& x509_api::x509_parser_certificate(der) is None <==> (r is Err
                && r->Err_0 is DerParse)
            &&& x509_api::x509_parser_certificate(der) matches Some(parsed) ==> r is Ok
                && (r->Ok_0)@ == parsed.serial
        },
{
}

/// The serial number that `serial_of` reads is that of the certificate, as `openssl` reads it. No
/// certificate, and no number that can be read, are errors, each its own.
pub proof fn lemma_serial_in_an_archive(found: Option<Seq<u8>>, r: Result<Vec<u8>, CertError>)
    requires
        reading::found_serial_result(found, r),
    ensures
        found is None <==> (r is Err && r->Err_0 is NoArchiveCertificate),
        found matches Some(der) ==> {
            &&& openssl_api::x509_serial(der) is None <==> (r is Err && r->Err_0 is OpenSsl)
            &&& openssl_api::x509_serial(der) matches Some(serial) ==> r is Ok && (r->Ok_0)@
                == serial
        },
{
}

/// The serial number of an authority's certificate is the same in the text that `get_tls_pem`
/// writes as `x509-parser` reads it in the certificate.
pub proof fn lemma_serial_of_written_authority(
    cert: Seq<u8>,
    written: Result<Vec<u8>, CertError>,
    r: Result<Vec<u8>, CertError>,
)
    requires
        reading::tls_pem_result(cert, written),
        openssl_api::x509_der(cert) == Some(cert),
        x509_api::x509_parser_certificate(cert) is Some,
        written matches Ok(pem) ==> reading::pem_serial_result(pem@, r),
    ensures
        written is Ok ==> r is Ok && (r->Ok_0)@ == x509_api::x509_parser_certificate(
            cert,
        )->0.serial,
        openssl_api::x509_readable(cert) && cert.len() < 1_073_741_824 ==> written is Ok,
{
    if let Ok(pem) = written {
        let text = pem@;
        assert(text + Seq::<u8>::empty() =~= text);
        assert(x509_api::x509_parser_pem(text + Seq::<u8>::empty()) == openssl_api::x509_der(
            cert,
        ));
    }
}

/// What `get_dns_names` reads in an archive: all of the DNS names among the alternative names of a
/// certificate that the password finds in it, in order. That there is no certificate, or that it
/// has no alternative names, is said only where that is what was found.
pub proof fn lemma_names_in_an_archive_were_found(
    p12: Seq<u8>,
    password: Seq<char>,
    r: Result<Vec<String>, CertError>,
)
    requires
        reading::dns_names_result(model::CertDataView::Pkcs12(p12), password, r),
    ensures
        match r {
            Ok(names) => exists|der: Seq<u8>| #[trigger]
                openssl_api::pkcs12_finds(p12, password, Some(der)) && (openssl_api::x509_san(
                    der,
                ) matches Some(list) && are_all_in_order(model::texts(names@), list)),
            Err(CertError::NoArchiveCertificate) => openssl_api::pkcs12_finds(p12, password, None),
            Err(CertError::NoArchiveSan) => exists|der: Seq<u8>| #[trigger]
                openssl_api::pkcs12_finds(p12, password, Some(der)) && openssl_api::x509_san(
                    der,
                ) is None,
            Err(e) => e is OpenSsl,
        },
{
    if !(r is Err && r->Err_0 is OpenSsl) {
        let found = choose|found: Option<Seq<u8>>| #[trigger]
            openssl_api::pkcs12_finds(p12, password, found) && reading::is_found_readable(found)
                && reading::found_names_result(found, r);
        lemma_dns_names_in_an_archive(found, r);
        if let Some(der) = found {
            assert(openssl_api::pkcs12_finds(p12, password, Some(der)));
        }
    }
}

/// What `extract_pkcs12_serial_number` reads in an archive: the serial number of a certificate that
/// the password finds in it. That there is no certificate is said only where none was found.
pub proof fn lemma_serial_in_an_archive_was_found(
    p12: Seq<u8>,
    password: Seq<char>,
    r: Result<Vec<u8>, CertError>,
)
    requires
        reading::archive_serial_result(p12, password, r),
    ensures
        match r {
            Ok(serial) => exists|der: Seq<u8>| #[trigger]
                openssl_api::pkcs12_finds(p12, password, Some(der)) && openssl_api::x509_serial(der)
                    == Some(serial@),
            Err(CertError::NoArchiveCertificate) => openssl_api::pkcs12_finds(p12, password, None),
            Err(e) => e is OpenSsl,
        },
{
    if !(r is Err && r->Err_0 is OpenSsl) {
        let found = choose|found: Option<Seq<u8>>| #[trigger]
            openssl_api::pkcs12_finds(p12, password, found) && reading::is_found_readable(found)
                && reading::found_serial_result(found, r);
        if let Some(der) = found {
            assert(openssl_api::pkcs12_finds(p12, password, Some(der)));
        }
    }
}

/// What `parse_p12_metadata` reads in an archive: the common name, the organizational unit if it
/// can be read, and both ends of the validity in milliseconds of a certificate that the password
/// finds in it. That there is no certificate, or that it has no common name, is said only where
/// that is what was found.
pub proof fn lemma_metadata_in_an_archive_was_found(
    p12: Seq<u8>,
    password: Seq<char>,
    r: Result<(Name, i64, i64), CertError>,
)
    requires
        reading::metadata_result(p12, password, r),
    ensures
        match r {
            Ok((name, created_on, valid_until)) => exists|der: Seq<u8>|
                {
                    let ou = openssl_api::x509_subject_text(der, DnAttribute::OrganizationalUnit);
                    &&& #[trigger] openssl_api::pkcs12_finds(p12, password, Some(der))
                    &&& openssl_api::x509_subject_text(der, DnAttribute::CommonName) == Some(
                        Some(name@.cn),
                    )
                    &&& ou matches Some(Some(unit)) ==> name@.ou == Some(unit)
                    &&& ou is None || ou == Some(None::<Seq<char>>) ==> name@.ou is None
                    &&& openssl_api::x509_not_before(der, 0) matches Some(start) && created_on
                        == start.0 * 86_400_000 + start.1 * 1000
                    &&& openssl_api::x509_not_after(der, 0) matches Some(end) && valid_until
                        == end.0 * 86_400_000 + end.1 * 1000
                },
            Err(CertError::NoMetadataCertificate) => openssl_api::pkcs12_finds(p12, password, None),
            Err(CertError::NoCommonName) => exists|der: Seq<u8>| #[trigger]
                openssl_api::pkcs12_finds(p12, password, Some(der))
                    && openssl_api::x509_subject_text(der, DnAttribute::CommonName) is None,
            Err(e) => e is OpenSsl,
        },
{
    if !(r is Err && r->Err_0 is OpenSsl) {
        let found = choose|found: Option<Seq<u8>>| #[trigger]
            openssl_api::pkcs12_finds(p12, password, found) && reading::is_found_readable(found)
                && reading::found_metadata_result(found, r);
        lemma_metadata_of_a_certificate(found, r);
        if let Some(der) = found {
            assert(openssl_api::pkcs12_finds(p12, password, Some(der)));
        }
    }
}

}
