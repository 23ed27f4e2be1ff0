use openssl::pkcs12::Pkcs12;
use openssl::x509::X509;
use tls_cert::builder::check_attributes;
use tls_cert::builder::check_issuer;
use tls_cert::builder::validity_days;
use tls_cert::builder::TLSCertificateBuilder;
use tls_cert::model::CAType;
use tls_cert::model::CertData;
use tls_cert::model::CertError;
use tls_cert::model::Certificate;
use tls_cert::model::CertificateRenewMethod;
use tls_cert::model::CertificateType;
use tls_cert::model::DataFormat;
use tls_cert::model::Name;
use tls_cert::model::TimespanUnit;
use tls_cert::model::CA;
use tls_cert::reading::extract_pkcs12_serial_number;
use tls_cert::reading::get_dns_names;
use tls_cert::reading::get_tls_pem;
use tls_cert::reading::metadata_of;
use tls_cert::reading::names_of;
use tls_cert::reading::parse_ca;
use tls_cert::reading::parse_p12_metadata;
use tls_cert::reading::serial_of;
use tls_cert::x509_api::NameAttribute;
use x509_parser::prelude::FromDer;
use x509_parser::prelude::X509Certificate;

/// 2024-05-06 07:08:09.987654321
const NOW: i128 = 1_714_979_289_987_654_321;

fn name(cn: &str, ou: Option<&str>) -> Name {
    Name { cn: cn.to_string(), ou: ou.map(|s| s.to_string()) }
}

fn names(list: &[&str]) -> Vec<String> {
    list.iter().map(|s| s.to_string()).collect()
}

fn new_key() -> Vec<u8> {
    rcgen::KeyPair::generate_for(&rcgen::PKCS_ECDSA_P256_SHA256).unwrap().serialize_der()
}

fn new_ca() -> CA {
    TLSCertificateBuilder::new()
        .unwrap()
        .set_name(name("Root", Some("Unit")))
        .unwrap()
        .set_valid_until(2, TimespanUnit::Year)
        .unwrap()
        .build_ca()
        .unwrap()
}

fn ready(ca: &CA) -> TLSCertificateBuilder {
    TLSCertificateBuilder::with_key(new_key(), NOW, 0x0102_0304_0506_0708)
        .set_name(name("alice", Some("Sales")))
        .unwrap()
        .set_valid_until_at(NOW, 30, TimespanUnit::Day)
        .set_password("secret")
        .unwrap()
        .set_user_id(42)
        .unwrap()
        .set_ca(ca)
        .unwrap()
}

fn archive(cert: &Certificate) -> Vec<u8> {
    match &cert.data {
        CertData::Pkcs12(bytes) => bytes.clone(),
        _ => panic!("not an archive"),
    }
}

fn inner(cert: &Certificate) -> X509 {
    Pkcs12::from_der(&archive(cert)).unwrap().parse2(&cert.password).unwrap().cert.unwrap()
}

#[test]
fn built_authority_is_read_back_from_der() {
    let key = new_key();
    let ca = TLSCertificateBuilder::with_key(key.clone(), NOW, 77)
        .set_name(name("Root", Some("Unit")))
        .unwrap()
        .set_valid_until_at(NOW, 1, TimespanUnit::Year)
        .build_ca()
        .unwrap();
    assert_eq!(ca.id, -1);
    assert_eq!(ca.name.cn, "Root");
    assert_eq!(ca.name.ou.as_deref(), Some("Unit"));
    assert_eq!(ca.created_on, 1_714_979_289_987);
    assert_eq!(ca.valid_until, (1_714_979_289 + 365 * 24 * 3600) * 1000);
    assert_eq!(ca.ca_type, CAType::TLS);
    assert_eq!(ca.key, key);
    assert_eq!(ca.crl_number, 0);

    let back = parse_ca(&ca.cert, &ca.key, DataFormat::DER, 5).unwrap();
    assert_eq!(back.id, -1);
    assert_eq!(back.name.cn, "Root");
    assert_eq!(back.name.ou.as_deref(), Some("Unit"));
    assert_eq!(back.created_on, 1_714_979_289_000);
    assert_eq!(back.valid_until, ca.valid_until);
    assert_eq!(back.ca_type, CAType::TLS);
    assert_eq!(back.cert, ca.cert);
    assert_eq!(back.key, key);
    assert_eq!(back.crl_number, 5);
}

#[test]
fn built_authority_is_read_back_from_pem() {
    let ca = new_ca();
    let cert_pem = get_tls_pem(&ca).unwrap();
    assert!(cert_pem.starts_with(b"-----BEGIN CERTIFICATE-----"));
    let key_pem = openssl::pkey::PKey::private_key_from_der(&ca.key)
        .unwrap()
        .private_key_to_pem_pkcs8()
        .unwrap();
    let back = parse_ca(&cert_pem, &key_pem, DataFormat::PEM, 9).unwrap();
    assert_eq!(back.cert, ca.cert);
    assert_eq!(back.name.cn, "Root");
    assert_eq!(back.name.ou.as_deref(), Some("Unit"));
    assert_eq!(back.crl_number, 9);
}

#[test]
fn odd_names_of_an_authority_are_read_back() {
    for cn in ["", "ä ☃ 𝄞", "a\0b", &"x".repeat(300)] {
        let ca = TLSCertificateBuilder::with_key(new_key(), NOW, 0)
            .set_name(name(cn, None))
            .unwrap()
            .set_valid_until_at(NOW, 0, TimespanUnit::Hour)
            .build_ca()
            .unwrap();
        let back = parse_ca(&ca.cert, &ca.key, DataFormat::DER, 0).unwrap();
        assert_eq!(back.name.cn, cn);
        assert_eq!(back.name.ou, None);
        assert_eq!(back.valid_until, (1_714_979_289 + 3600) * 1000);
    }
}

#[test]
fn far_ends_of_a_validity_are_read_back() {
    // The years 0000, 1969, 2049, 2050 and 9999.
    for second in [-62_167_219_200i128, -1, 2_524_607_999, 2_524_608_000, 253_402_300_799 - 3600] {
        let now = second * 1_000_000_000 + 999_999_999;
        let ca = TLSCertificateBuilder::with_key(new_key(), now, 1)
            .set_name(name("Root", None))
            .unwrap()
            .set_valid_until_at(now, 1, TimespanUnit::Hour)
            .build_ca()
            .unwrap();
        let back = parse_ca(&ca.cert, &ca.key, DataFormat::DER, 0).unwrap();
        assert_eq!(back.created_on as i128, second * 1000);
        assert_eq!(back.valid_until as i128, (second + 3600) * 1000);
    }
}

#[test]
fn far_ends_of_an_archive_are_read_back() {
    let ca = new_ca();
    for second in [-62_167_219_200i128, -1, 2_524_607_999, 2_524_608_000, 253_402_300_799 - 3600] {
        let now = second * 1_000_000_000 + 5;
        let cert = TLSCertificateBuilder::with_key(new_key(), now, 1)
            .set_name(name("bob", None))
            .unwrap()
            .set_valid_until_at(now, 1, TimespanUnit::Hour)
            .set_user_id(1)
            .unwrap()
            .set_ca(&ca)
            .unwrap()
            .build_common(CertificateType::TLSClient, None)
            .unwrap();
        let (read, created_on, valid_until) = parse_p12_metadata(&archive(&cert), "").unwrap();
        assert_eq!(read.cn, "bob");
        assert_eq!(created_on as i128, second * 1000);
        assert_eq!(valid_until as i128, (second + 3600) * 1000);
    }
}

#[test]
fn authority_certificate_has_its_uses() {
    let ca = new_ca();
    let (_, cert) = X509Certificate::from_der(&ca.cert).unwrap();
    let basic = cert.basic_constraints().unwrap().unwrap();
    assert!(basic.value.ca);
    assert_eq!(basic.value.path_len_constraint, None);
    let usage = cert.key_usage().unwrap().unwrap();
    assert!(usage.value.key_cert_sign() && usage.value.crl_sign());
    assert!(!usage.value.digital_signature() && !usage.value.key_encipherment());
    assert!(cert.extended_key_usage().unwrap().is_none());
    let x509 = X509::from_der(&ca.cert).unwrap();
    assert!(x509.verify(&x509.public_key().unwrap()).unwrap());
}

#[test]
fn client_and_server_certificates_have_their_uses() {
    let ca = new_ca();
    let client = ready(&ca).build_client(None).unwrap();
    let server = ready(&ca).build_server(None).unwrap();
    let common = ready(&ca).build_common(CertificateType::SSHServer, None).unwrap();
    assert_eq!(client.certificate_type, CertificateType::TLSClient);
    assert_eq!(server.certificate_type, CertificateType::TLSServer);
    assert_eq!(common.certificate_type, CertificateType::SSHServer);
    for (cert, is_client, is_server) in
        [(&client, true, false), (&server, false, true), (&common, false, false)]
    {
        let x509 = inner(cert);
        assert!(x509.verify(&X509::from_der(&ca.cert).unwrap().public_key().unwrap()).unwrap());
        let der = x509.to_der().unwrap();
        let (_, parsed) = X509Certificate::from_der(&der).unwrap();
        assert!(!parsed.basic_constraints().unwrap().unwrap().value.ca);
        let usage = parsed.key_usage().unwrap().unwrap();
        assert!(usage.value.digital_signature() && usage.value.key_encipherment());
        assert!(!usage.value.key_cert_sign() && !usage.value.crl_sign());
        match parsed.extended_key_usage().unwrap() {
            Some(extended) => {
                assert_eq!(extended.value.client_auth, is_client);
                assert_eq!(extended.value.server_auth, is_server);
            }
            None => assert!(!is_client && !is_server),
        }
    }
}

#[test]
fn certificate_record_is_filled_in() {
    let ca = CA { id: 7, ..new_ca() };
    let cert = ready(&ca)
        .set_renew_method(CertificateRenewMethod::RenewAndNotify)
        .unwrap()
        .build_client(None)
        .unwrap();
    assert_eq!(cert.id, -1);
    assert_eq!(cert.name.cn, "alice");
    assert_eq!(cert.name.ou.as_deref(), Some("Sales"));
    assert_eq!(cert.created_on, 1_714_979_289_987);
    assert_eq!(cert.valid_until, (1_714_979_289 + 30 * 24 * 3600) * 1000);
    assert_eq!(cert.password, "secret");
    assert_eq!(cert.ca_id, 7);
    assert_eq!(cert.user_id, 42);
    assert_eq!(cert.renew_method, CertificateRenewMethod::RenewAndNotify);
    assert_eq!(cert.revoked_at, None);
}

#[test]
fn archive_metadata_is_what_was_set() {
    let ca = new_ca();
    for (cn, ou, password) in [
        ("alice", Some("Sales"), "secret"),
        ("bob", None, ""),
        ("", Some(""), "x"),
        ("ä ☃", Some("ü"), "pässwörd ☃"),
    ] {
        let cert = ready(&ca)
            .set_name(name(cn, ou))
            .unwrap()
            .set_password(password)
            .unwrap()
            .build_server(None)
            .unwrap();
        let (read, created_on, valid_until) =
            parse_p12_metadata(&archive(&cert), password).unwrap();
        assert_eq!(read.cn, cn);
        assert_eq!(read.ou.as_deref(), ou);
        assert_eq!(created_on, 1_714_979_289_000);
        assert_eq!(valid_until, cert.valid_until);
        let wrong = Certificate { password: "wrong".to_string(), ..cert };
        assert!(matches!(
            parse_p12_metadata(&archive(&wrong), "wrong"),
            Err(CertError::OpenSsl(_))
        ));
        assert!(matches!(
            extract_pkcs12_serial_number(&archive(&wrong), "wrong"),
            Err(CertError::OpenSsl(_))
        ));
        assert!(matches!(get_dns_names(&wrong), Err(CertError::OpenSsl(_))));
    }
}

#[test]
fn found_certificate_is_read_by_itself() {
    let ca = new_ca();
    let cert = ready(&ca).set_dns_san(&names(&["a.example"])).unwrap().build_client(None).unwrap();
    let found = || Some(inner(&cert).to_der().unwrap());
    assert_eq!(names_of(found()).unwrap(), names(&["a.example"]));
    assert_eq!(serial_of(found()).unwrap(), vec![1, 2, 3, 4, 5, 6, 7, 8]);
    let (read, created_on, valid_until) = metadata_of(found()).unwrap();
    assert_eq!((created_on, valid_until), (1_714_979_289_000, cert.valid_until));
    let parsed = parse_ca(&found().unwrap(), b"", DataFormat::DER, 0).unwrap();
    assert_eq!(parsed.name.cn, read.cn);
    assert_eq!(parsed.name.ou, read.ou);
    assert_eq!((parsed.created_on, parsed.valid_until), (created_on, valid_until));

    assert!(matches!(names_of(None), Err(CertError::NoArchiveCertificate)));
    assert!(matches!(serial_of(None), Err(CertError::NoArchiveCertificate)));
    assert!(matches!(metadata_of(None), Err(CertError::NoMetadataCertificate)));
    assert!(matches!(names_of(Some(vec![1])), Err(CertError::OpenSsl(_))));
    assert!(matches!(serial_of(Some(vec![1])), Err(CertError::OpenSsl(_))));
    assert!(matches!(metadata_of(Some(vec![1])), Err(CertError::OpenSsl(_))));
    assert!(matches!(names_of(Some(ca.cert)), Err(CertError::NoArchiveSan)));
}

#[test]
fn records_for_clients_and_servers_agree() {
    let ca = new_ca();
    let client = ready(&ca).build_client(None).unwrap();
    let server = ready(&ca).build_server(None).unwrap();
    assert_eq!(
        (client.id, client.ca_id, client.user_id),
        (server.id, server.ca_id, server.user_id)
    );
    assert_eq!((client.name.cn, client.name.ou), (server.name.cn, server.name.ou));
    assert_eq!(
        (client.created_on, client.valid_until, client.revoked_at),
        (server.created_on, server.valid_until, server.revoked_at)
    );
    assert_eq!((client.password, client.renew_method), (server.password, server.renew_method));
}

#[test]
fn archive_holds_key_authority_and_friendly_name() {
    let ca = new_ca();
    let cert = ready(&ca).build_client(None).unwrap();
    let parsed = Pkcs12::from_der(&archive(&cert)).unwrap().parse2("secret").unwrap();
    let own = parsed.cert.unwrap();
    assert!(own.public_key().unwrap().public_eq(&parsed.pkey.unwrap()));
    assert_eq!(own.alias(), Some(b"alice" as &[u8]));
    let chain = parsed.ca.unwrap();
    assert_eq!(chain.len(), 1);
    assert_eq!(chain[0].to_der().unwrap(), ca.cert);
}

#[test]
fn certificate_under_an_rsa_authority_is_read_back() {
    let pkey = openssl::pkey::PKey::from_rsa(openssl::rsa::Rsa::generate(2048).unwrap()).unwrap();
    let mut subject = openssl::x509::X509NameBuilder::new().unwrap();
    subject.append_entry_by_text("OU", "Keys").unwrap();
    subject.append_entry_by_text("CN", "RSA Root").unwrap();
    let subject = subject.build();
    let mut cert = X509::builder().unwrap();
    cert.set_version(2).unwrap();
    cert.set_subject_name(&subject).unwrap();
    cert.set_issuer_name(&subject).unwrap();
    cert.set_pubkey(&pkey).unwrap();
    cert.set_not_before(&openssl::asn1::Asn1Time::from_unix(10).unwrap()).unwrap();
    cert.set_not_after(&openssl::asn1::Asn1Time::from_unix(4_000_000_000).unwrap()).unwrap();
    cert.sign(&pkey, openssl::hash::MessageDigest::sha256()).unwrap();
    let cert_der = cert.build().to_der().unwrap();
    let key_der = pkey.private_key_to_pkcs8().unwrap();

    let ca = parse_ca(&cert_der, &key_der, DataFormat::DER, 3).unwrap();
    assert_eq!(ca.name.cn, "RSA Root");
    assert_eq!(ca.name.ou.as_deref(), Some("Keys"));
    assert_eq!(ca.created_on, 10_000);
    assert_eq!(ca.valid_until, 4_000_000_000_000);
    let leaf = ready(&ca).set_dns_san(&names(&["a.example"])).unwrap().build_server(None).unwrap();
    assert_eq!(get_dns_names(&leaf).unwrap(), names(&["a.example"]));
    let x509 = inner(&leaf);
    assert!(x509.verify(&pkey).unwrap());
    assert_eq!(
        x509.issuer_name().to_der().unwrap(),
        X509::from_der(&cert_der).unwrap().subject_name().to_der().unwrap()
    );
    assert_eq!(parse_p12_metadata(&archive(&leaf), "secret").unwrap().0.cn, "alice");
}

#[test]
fn dns_names_of_an_archive_are_what_was_set() {
    let ca = new_ca();
    let cert = ready(&ca)
        .set_dns_san(&names(&["a.example", "b.example"]))
        .unwrap()
        .set_email_san("alice@example")
        .unwrap()
        .set_dns_san(&names(&["", "c.example"]))
        .unwrap()
        .build_server(None)
        .unwrap();
    assert_eq!(get_dns_names(&cert).unwrap(), names(&["a.example", "b.example", "", "c.example"]));
    let emails: Vec<String> = inner(&cert)
        .subject_alt_names()
        .unwrap()
        .iter()
        .filter_map(|n| n.email().map(|s| s.to_string()))
        .collect();
    assert_eq!(emails, names(&["alice@example"]));
}

#[test]
fn email_alone_gives_no_dns_names() {
    let cert = ready(&new_ca()).set_email_san("a@b").unwrap().build_client(None).unwrap();
    assert_eq!(get_dns_names(&cert).unwrap(), names(&[]));
}

#[test]
fn archive_without_alternative_names_is_an_error() {
    let cert = ready(&new_ca()).set_dns_san(&names(&[])).unwrap().build_client(None).unwrap();
    assert!(matches!(get_dns_names(&cert), Err(CertError::NoArchiveSan)));
}

#[test]
fn serial_number_of_an_archive_is_the_builders() {
    let ca = new_ca();
    let cert = ready(&ca).build_client(None).unwrap();
    assert_eq!(
        extract_pkcs12_serial_number(&archive(&cert), "secret").unwrap(),
        vec![1, 2, 3, 4, 5, 6, 7, 8]
    );
    let zero = TLSCertificateBuilder::with_key(new_key(), NOW, 0)
        .set_name(name("zero", None))
        .unwrap()
        .set_valid_until_at(NOW, 1, TimespanUnit::Day)
        .set_user_id(1)
        .unwrap()
        .set_ca(&ca)
        .unwrap()
        .build_client(None)
        .unwrap();
    assert_eq!(extract_pkcs12_serial_number(&archive(&zero), "").unwrap(), Vec::<u8>::new());
}

#[test]
fn names_that_are_not_ascii_are_refused() {
    let ca = new_ca();
    assert!(matches!(
        ready(&ca).set_dns_san(&names(&["a.example", "ä.example"])),
        Err(CertError::Rcgen(_))
    ));
    assert!(matches!(ready(&ca).set_email_san("ä@example"), Err(CertError::Rcgen(_))));
    assert!(ready(&ca).set_email_san("").is_ok());
}

#[test]
fn missing_parts_are_reported_in_order() {
    let ca = new_ca();
    let bare = || TLSCertificateBuilder::with_key(new_key(), NOW, 1);
    assert!(matches!(bare().build_ca(), Err(CertError::NameNotSet)));
    assert!(matches!(bare().build_client(None), Err(CertError::NameNotSet)));
    let named = || bare().set_name(name("n", None)).unwrap();
    assert!(matches!(named().build_ca(), Err(CertError::ValidUntilNotSet)));
    assert!(matches!(named().build_server(None), Err(CertError::ValidUntilNotSet)));
    let dated = || named().set_valid_until_at(NOW, 1, TimespanUnit::Month);
    assert!(dated().build_ca().is_ok());
    assert!(matches!(dated().build_client(None), Err(CertError::UserIdNotSet)));
    let owned = || dated().set_user_id(3).unwrap();
    assert!(matches!(
        owned().build_common(CertificateType::TLSClient, None),
        Err(CertError::CaNotSet)
    ));
    assert!(owned().set_ca(&ca).unwrap().build_client(None).is_ok());
}

#[test]
fn authority_for_ssh_is_refused() {
    let ca = CA { ca_type: CAType::SSH, ..new_ca() };
    let builder = TLSCertificateBuilder::with_key(new_key(), NOW, 1);
    assert!(matches!(builder.set_ca(&ca), Err(CertError::CaNotTls)));
}

#[test]
fn authority_with_the_builders_own_key_is_told_apart() {
    let key = new_key();
    let builder = || {
        TLSCertificateBuilder::with_key(key.clone(), NOW, 1)
            .set_name(name("n", None))
            .unwrap()
            .set_valid_until_at(NOW, 1, TimespanUnit::Day)
    };
    let own = builder().build_ca().unwrap();
    assert!(builder().shares_key_with(&own).unwrap());
    assert!(!builder().shares_key_with(&new_ca()).unwrap());
    let broken = CA { cert: vec![1], ..own };
    assert!(matches!(builder().shares_key_with(&broken), Err(CertError::OpenSsl(_))));
}

#[test]
fn broken_authority_is_an_error_of_rcgen() {
    let ca = new_ca();
    let no_key = CA { key: vec![1, 2, 3], ..new_ca() };
    assert!(matches!(ready(&no_key).build_client(None), Err(CertError::Rcgen(_))));
    let no_cert = CA { cert: vec![1, 2, 3], ..ca };
    assert!(matches!(ready(&no_cert).build_client(None), Err(CertError::Rcgen(_))));
}

#[test]
fn key_that_cannot_be_read_is_an_error() {
    let built = TLSCertificateBuilder::with_key(vec![0], NOW, 1)
        .set_name(name("n", None))
        .unwrap()
        .set_valid_until_at(NOW, 1, TimespanUnit::Day)
        .build_ca();
    assert!(matches!(built, Err(CertError::Rcgen(_))));
}

#[test]
fn revocation_list_address_is_in_the_certificate() {
    let ca = CA { id: 12, ..new_ca() };
    let cert = ready(&ca).build_client(Some("https://ca.example")).unwrap();
    let points = inner(&cert).crl_distribution_points().unwrap();
    assert_eq!(points.len(), 1);
    let name_of_point = points[0].distpoint().unwrap().fullname().unwrap();
    assert_eq!(name_of_point.len(), 1);
    assert_eq!(name_of_point[0].uri(), Some("https://ca.example/crl/crl-12.crl"));
    let without = ready(&ca).build_client(None).unwrap();
    assert!(inner(&without).crl_distribution_points().is_none());
}

#[test]
fn what_cannot_be_written_is_found_out_before() {
    let ca = new_ca();
    assert!(ready(&ca).can_build(None));
    assert!(ready(&ca).can_build(Some("https://ca.example")));
    assert!(!ready(&ca).can_build(Some("https://cä.example")));
    assert!(!ready(&ca).set_name(name("a\0", None)).unwrap().can_build(None));
    assert!(!ready(&ca).set_password("a\0").unwrap().can_build(None));
    let early = -62_167_219_200i128 * 1_000_000_000;
    let at = |now: i128| {
        TLSCertificateBuilder::with_key(new_key(), now, 1)
            .set_name(name("n", None))
            .unwrap()
            .set_valid_until_at(now, 1, TimespanUnit::Hour)
    };
    assert!(at(early).can_build_ca());
    assert!(!at(early - 1).can_build_ca());
    assert!(at(early - 1).set_user_id(1).unwrap().can_build(None));
    assert!(!at(early - 1).set_user_id(1).unwrap().set_ca(&ca).unwrap().can_build(None));
    assert!(ready(&ca).set_password("a\0").unwrap().try_build_client(None).is_none());
    assert!(ready(&ca).set_password("a\0").unwrap().try_build_server(None).is_none());
    assert!(ready(&ca)
        .set_password("a\0")
        .unwrap()
        .try_build_common(CertificateType::TLSClient, None)
        .is_none());
    let client = ready(&ca).try_build_client(None).unwrap().unwrap();
    assert_eq!(client.certificate_type, CertificateType::TLSClient);
    let server = ready(&ca).try_build_server(None).unwrap().unwrap();
    assert_eq!(server.certificate_type, CertificateType::TLSServer);
    let common = ready(&ca).try_build_common(CertificateType::SSHClient, None).unwrap().unwrap();
    assert_eq!(common.certificate_type, CertificateType::SSHClient);
}

#[test]
fn earlier_error_comes_before_what_cannot_be_written() {
    let no_key = CA { key: vec![1, 2, 3], ..new_ca() };
    let no_cert = CA { cert: vec![1, 2, 3], ..new_ca() };
    for broken in [&no_key, &no_cert] {
        let nul = || ready(broken).set_name(name("a\0", None)).unwrap();
        assert!(matches!(nul().try_build_client(None), Some(Err(CertError::Rcgen(_)))));
        assert!(matches!(nul().try_build_server(None), Some(Err(CertError::Rcgen(_)))));
        assert!(matches!(
            nul().try_build_common(CertificateType::TLSClient, None),
            Some(Err(CertError::Rcgen(_)))
        ));
        assert!(matches!(
            ready(broken).try_build_client(Some("https://cä.example")),
            Some(Err(CertError::Rcgen(_)))
        ));
    }
    let sound = new_ca();
    assert!(ready(&sound).set_name(name("a\0", None)).unwrap().try_build_client(None).is_none());
    assert!(ready(&sound).try_build_client(Some("https://cä.example")).is_none());
    let unnamed = TLSCertificateBuilder::with_key(new_key(), NOW, 1).set_password("a\0").unwrap();
    assert!(matches!(unnamed.try_build_client(None), Some(Err(CertError::NameNotSet))));
}

#[test]
fn built_authorities_can_issue() {
    for (cn, ou) in [("Root", None), ("What?", Some("Why?")), ("", Some("")), ("\u{1F512}", None)] {
        let ca = TLSCertificateBuilder::with_key(new_key(), NOW, 1)
            .set_name(name(cn, ou))
            .unwrap()
            .set_valid_until_at(NOW, 1, TimespanUnit::Day)
            .build_ca()
            .unwrap();
        assert!(check_issuer(&ca.cert));
        let (_, cert) = X509Certificate::from_der(&ca.cert).unwrap();
        let values: Vec<(Vec<u8>, u32, Vec<u8>)> = cert
            .subject()
            .iter_attributes()
            .map(|a| {
                (a.attr_type().as_bytes().to_vec(), a.attr_value().tag().0, a.as_slice().to_vec())
            })
            .collect();
        let mut expected = vec![(vec![85, 4, 3], 12, cn.as_bytes().to_vec())];
        if let Some(ou) = ou {
            expected.push((vec![85, 4, 11], 12, ou.as_bytes().to_vec()));
        }
        assert_eq!(values, expected);
        assert!(ready(&ca).try_build_client(None).is_some());
    }
}

#[test]
fn readers_agree_on_a_certificate_of_another_make() {
    let key = openssl::pkey::PKey::private_key_from_der(&new_key()).unwrap();
    for ty in [openssl::asn1::Asn1Type::PRINTABLESTRING, openssl::asn1::Asn1Type::UTF8STRING] {
        let mut subject = openssl::x509::X509NameBuilder::new().unwrap();
        subject.append_entry_by_text_with_type("O", "Other", ty).unwrap();
        subject.append_entry_by_text_with_type("CN", "First", ty).unwrap();
        subject.append_entry_by_text_with_type("CN", "Second", ty).unwrap();
        subject.append_entry_by_text_with_type("OU", "Unit", ty).unwrap();
        let subject = subject.build();
        let mut cert = X509::builder().unwrap();
        cert.set_version(2).unwrap();
        cert.set_subject_name(&subject).unwrap();
        cert.set_issuer_name(&subject).unwrap();
        cert.set_pubkey(&key).unwrap();
        cert.set_not_before(&openssl::asn1::Asn1Time::from_unix(-86_401).unwrap()).unwrap();
        cert.set_not_after(&openssl::asn1::Asn1Time::from_unix(4_102_444_800).unwrap()).unwrap();
        cert.sign(&key, openssl::hash::MessageDigest::sha256()).unwrap();
        let der = cert.build().to_der().unwrap();
        let (found, created_on, valid_until) = metadata_of(Some(der.clone())).unwrap();
        let ca = parse_ca(&der, &[], DataFormat::DER, 0).unwrap();
        assert_eq!((found.cn.as_str(), found.ou.as_deref()), ("First", Some("Unit")));
        assert_eq!((ca.name.cn.as_str(), ca.name.ou.as_deref()), ("First", Some("Unit")));
        assert_eq!((created_on, valid_until), (-86_401_000, 4_102_444_800_000));
        assert_eq!((ca.created_on, ca.valid_until), (-86_401_000, 4_102_444_800_000));
    }
}

#[test]
fn issuers_are_checked_attribute_by_attribute() {
    let attribute = |oid: &[u8], tag: u32, value: &[u8]| NameAttribute {
        oid: oid.to_vec(),
        tag,
        value: value.to_vec(),
    };
    assert!(check_attributes(&[]));
    assert!(check_attributes(&[attribute(&[85, 4, 3], 12, b"What?")]));
    assert!(check_attributes(&[attribute(&[85, 4, 3], 19, b"What")]));
    assert!(!check_attributes(&[
        attribute(&[85, 4, 3], 12, b"x"),
        attribute(&[85, 4, 10], 19, b"What?"),
    ]));
    assert!(!check_attributes(&[attribute(&[], 12, b"x")]));
    assert!(!check_attributes(&[attribute(&[0], 12, b"x")]));
    assert!(check_attributes(&[attribute(&[119], 12, b"x")]));
    assert!(!check_attributes(&[attribute(&[120], 12, b"x")]));
    assert!(check_issuer(&new_ca().cert));
    assert!(check_issuer(b"no certificate"));
}

#[test]
fn issuer_with_a_question_mark_is_told_from_the_certificate() {
    let key = rcgen::KeyPair::generate_for(&rcgen::PKCS_ECDSA_P256_SHA256).unwrap();
    let der_of = |ty: openssl::asn1::Asn1Type| {
        let pkey = openssl::pkey::PKey::private_key_from_der(&key.serialize_der()).unwrap();
        let mut subject = openssl::x509::X509NameBuilder::new().unwrap();
        subject.append_entry_by_text_with_type("O", "What?", ty).unwrap();
        let subject = subject.build();
        let mut cert = X509::builder().unwrap();
        cert.set_version(2).unwrap();
        cert.set_subject_name(&subject).unwrap();
        cert.set_issuer_name(&subject).unwrap();
        cert.set_pubkey(&pkey).unwrap();
        cert.set_not_before(&openssl::asn1::Asn1Time::from_unix(0).unwrap()).unwrap();
        cert.set_not_after(&openssl::asn1::Asn1Time::from_unix(1).unwrap()).unwrap();
        cert.sign(&pkey, openssl::hash::MessageDigest::sha256()).unwrap();
        cert.build().to_der().unwrap()
    };
    assert!(!check_issuer(&der_of(openssl::asn1::Asn1Type::PRINTABLESTRING)));
    assert!(check_issuer(&der_of(openssl::asn1::Asn1Type::UTF8STRING)));
}

#[test]
fn new_builders_have_their_own_keys_and_serial_numbers() {
    let ca = new_ca();
    let build = || {
        TLSCertificateBuilder::new()
            .unwrap()
            .set_name(name("n", None))
            .unwrap()
            .set_valid_until(1, TimespanUnit::Day)
            .unwrap()
            .set_user_id(1)
            .unwrap()
            .set_ca(&ca)
            .unwrap()
            .build_client(None)
            .unwrap()
    };
    let (one, two) = (build(), build());
    assert!(!inner(&one)
        .public_key()
        .unwrap()
        .public_eq(&inner(&two).public_key().unwrap()));
    assert_ne!(
        extract_pkcs12_serial_number(&archive(&one), "").unwrap(),
        extract_pkcs12_serial_number(&archive(&two), "").unwrap()
    );
    let now = time::OffsetDateTime::now_utc().unix_timestamp() * 1000;
    assert!((now - one.created_on).abs() < 3_600_000);
    assert!((one.valid_until - one.created_on - 86_400_000).abs() < 60_000);
    assert_eq!(one.renew_method, CertificateRenewMethod::NoRenewal);
}

#[test]
fn new_key_is_a_document_for_p256() {
    let key = new_ca().key;
    assert_eq!(key.len(), 138);
    assert_eq!(
        key[..36],
        [
            0x30, 0x81, 0x87, 0x02, 0x01, 0x00, 0x30, 0x13, 0x06, 0x07, 0x2a, 0x86, 0x48, 0xce,
            0x3d, 0x02, 0x01, 0x06, 0x08, 0x2a, 0x86, 0x48, 0xce, 0x3d, 0x03, 0x01, 0x07, 0x04,
            0x6d, 0x30, 0x6b, 0x02, 0x01, 0x01, 0x04, 0x20,
        ]
    );
    assert_eq!(key[68..73], [0xa1, 0x44, 0x03, 0x42, 0x00]);
    assert_eq!(key[73], 4);
    let read = rcgen::KeyPair::try_from(key.as_slice()).unwrap();
    assert!(read.is_compatible(&rcgen::PKCS_ECDSA_P256_SHA256));
    let curve = openssl::pkey::PKey::private_key_from_der(&key).unwrap().ec_key().unwrap();
    assert_eq!(curve.group().curve_name(), Some(openssl::nid::Nid::X9_62_PRIME256V1));
}

#[test]
fn renewal_lasts_as_long_and_fourteen_days_at_least() {
    let day = 86_400_000;
    assert_eq!(validity_days(0, 0), 14);
    assert_eq!(validity_days(0, -500 * day), 14);
    assert_eq!(validity_days(5, 5 + 15 * day - 1), 14);
    assert_eq!(validity_days(5, 5 + 15 * day), 15);
    assert_eq!(validity_days(1000, 1000 + 365 * day + 17), 365);
}

#[test]
fn renewal_copies_the_earlier_certificate() {
    let ca = new_ca();
    let old = ready(&ca)
        .set_renew_method(CertificateRenewMethod::Renew)
        .unwrap()
        .build_client(None)
        .unwrap();
    let later = NOW + 1_000_000_000;
    let renewed = TLSCertificateBuilder::with_key(new_key(), later, 5)
        .renew_at(&old, later)
        .set_ca(&ca)
        .unwrap()
        .build_client(None)
        .unwrap();
    assert_eq!(renewed.name.cn, "alice");
    assert_eq!(renewed.name.ou.as_deref(), Some("Sales"));
    assert_eq!(renewed.password, "secret");
    assert_eq!(renewed.renew_method, CertificateRenewMethod::Renew);
    assert_eq!(renewed.user_id, 42);
    // The end had been rounded down to the second, so the earlier one lasted no full 30 days.
    assert_eq!(renewed.valid_until, (1_714_979_290 + 29 * 24 * 3600) * 1000);

    let fresh = TLSCertificateBuilder::try_from(&old)
        .unwrap()
        .set_ca(&ca)
        .unwrap()
        .build_server(None)
        .unwrap();
    assert_eq!(fresh.name.cn, "alice");
    assert_eq!(fresh.password, "secret");
    assert_eq!(fresh.renew_method, CertificateRenewMethod::Renew);
    assert_eq!(fresh.user_id, 42);
    assert!((fresh.valid_until - fresh.created_on - 29 * 86_400_000).abs() < 60_000);
    assert!(matches!(
        TLSCertificateBuilder::try_from(&old).unwrap().build_client(None),
        Err(CertError::CaNotSet)
    ));
}

#[test]
fn validity_that_cannot_be_counted_is_an_error() {
    let builder = TLSCertificateBuilder::with_key(new_key(), NOW, 1);
    assert!(matches!(
        builder.set_valid_until(10_000, TimespanUnit::Year),
        Err(CertError::TimeOutOfRange)
    ));
}
