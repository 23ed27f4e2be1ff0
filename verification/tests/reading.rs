use openssl::pkcs12::Pkcs12;
use openssl::stack::Stack;
use openssl::x509::X509;
use tls_cert::builder::TLSCertificateBuilder;
use tls_cert::model::CAType;
use tls_cert::model::CertData;
use tls_cert::model::CertError;
use tls_cert::model::Certificate;
use tls_cert::model::CertificateRenewMethod;
use tls_cert::model::CertificateType;
use tls_cert::model::DataFormat;
use tls_cert::model::Name;
use tls_cert::model::TimespanUnit;
use tls_cert::model::CA;
use tls_cert::reading::archive_names;
use tls_cert::reading::ca_from;
use tls_cert::reading::check_archive;
use tls_cert::reading::common_name_of;
use tls_cert::reading::extract_pem_serial_number;
use tls_cert::reading::extract_pkcs12_serial_number;
use tls_cert::reading::found_certificate;
use tls_cert::reading::get_dns_names;
use tls_cert::reading::get_tls_pem;
use tls_cert::reading::kept_names;
use tls_cert::reading::parse_ca;
use tls_cert::reading::parse_p12_metadata;
use tls_cert::reading::pem_names;
use tls_cert::reading::unit_of;
use tls_cert::x509_api::ParsedCertificate;

fn new_ca() -> CA {
    TLSCertificateBuilder::new()
        .unwrap()
        .set_name(Name { cn: "Root".to_string(), ou: None })
        .unwrap()
        .set_valid_until(1, TimespanUnit::Year)
        .unwrap()
        .build_ca()
        .unwrap()
}

fn record(data: CertData, password: &str) -> Certificate {
    Certificate {
        id: 1,
        name: Name { cn: "x".to_string(), ou: None },
        created_on: 0,
        valid_until: 0,
        certificate_type: CertificateType::TLSServer,
        data,
        password: password.to_string(),
        ca_id: 1,
        user_id: 1,
        renew_method: CertificateRenewMethod::Notify,
        revoked_at: Some(3),
    }
}

/// A certificate without a subject, and its key.
fn nameless() -> (Vec<u8>, Vec<u8>) {
    let key = rcgen::KeyPair::generate_for(&rcgen::PKCS_ECDSA_P256_SHA256).unwrap();
    let mut params = rcgen::CertificateParams::default();
    params.distinguished_name = rcgen::DistinguishedName::new();
    (params.self_signed(&key).unwrap().der().to_vec(), key.serialize_der())
}

fn archive_of_chain_only() -> Vec<u8> {
    let mut chain = Stack::new().unwrap();
    chain.push(X509::from_der(&new_ca().cert).unwrap()).unwrap();
    Pkcs12::builder().ca(chain).build2("pw").unwrap().to_der().unwrap()
}

fn texts(list: &[Option<&str>]) -> Vec<Option<String>> {
    list.iter().map(|s| s.map(|t| t.to_string())).collect()
}

#[test]
fn text_without_pem_is_told_from_a_broken_certificate() {
    assert!(matches!(extract_pem_serial_number(b"nothing"), Err(CertError::PemParse(_))));
    let no_cert = b"-----BEGIN CERTIFICATE-----\nAAAA\n-----END CERTIFICATE-----\n";
    assert!(matches!(extract_pem_serial_number(no_cert), Err(CertError::DerParse(_))));
}

#[test]
fn serial_number_in_pem_is_that_of_the_certificate() {
    let ca = new_ca();
    let pem = get_tls_pem(&ca).unwrap();
    let cert = X509::from_der(&ca.cert).unwrap();
    assert_eq!(
        extract_pem_serial_number(&pem).unwrap(),
        cert.serial_number().to_bn().unwrap().to_vec()
    );
    assert_eq!(X509::from_pem(&pem).unwrap().to_der().unwrap(), ca.cert);
}

#[test]
fn authority_that_cannot_be_read_is_not_written() {
    let ca = CA { cert: vec![1, 2], ..new_ca() };
    assert!(matches!(get_tls_pem(&ca), Err(CertError::OpenSsl(_))));
    let good = new_ca();
    let mut longer = good.cert.clone();
    longer.push(0);
    let pem = get_tls_pem(&CA { cert: longer, key: vec![], ..new_ca() }).unwrap();
    assert_eq!(pem, get_tls_pem(&good).unwrap());
}

#[test]
fn archive_without_a_certificate_is_an_error() {
    let p12 = archive_of_chain_only();
    assert!(matches!(
        extract_pkcs12_serial_number(&p12, "pw"),
        Err(CertError::NoArchiveCertificate)
    ));
    assert!(matches!(
        get_dns_names(&record(CertData::Pkcs12(p12.clone()), "pw")),
        Err(CertError::NoArchiveCertificate)
    ));
    assert!(matches!(
        parse_p12_metadata(&p12, "pw"),
        Err(CertError::NoMetadataCertificate)
    ));
    assert!(matches!(found_certificate(None), Err(CertError::NoArchiveCertificate)));
    assert_eq!(found_certificate(Some(vec![7])).unwrap(), vec![7]);
}

#[test]
fn bytes_that_are_no_archive_are_an_error() {
    assert!(matches!(extract_pkcs12_serial_number(b"x", ""), Err(CertError::OpenSsl(_))));
    assert!(matches!(parse_p12_metadata(b"x", ""), Err(CertError::OpenSsl(_))));
    assert!(matches!(
        get_dns_names(&record(CertData::Pkcs12(vec![1]), "")),
        Err(CertError::OpenSsl(_))
    ));
    assert!(matches!(
        get_dns_names(&record(CertData::Pem(vec![1]), "")),
        Err(CertError::OpenSsl(_))
    ));
}

#[test]
fn archive_is_read_without_its_password() {
    assert!(check_archive(&archive_of_chain_only()).is_ok());
    assert!(matches!(check_archive(b"x"), Err(CertError::OpenSsl(_))));
    assert!(matches!(check_archive(&new_ca().cert), Err(CertError::OpenSsl(_))));
    assert!(matches!(
        extract_pkcs12_serial_number(&archive_of_chain_only(), "other"),
        Err(CertError::OpenSsl(_))
    ));
}

#[test]
fn archive_with_a_nameless_certificate_is_an_error() {
    let (cert, key) = nameless();
    let p12 = Pkcs12::builder()
        .cert(&X509::from_der(&cert).unwrap())
        .pkey(&openssl::pkey::PKey::private_key_from_der(&key).unwrap())
        .build2("pw")
        .unwrap()
        .to_der()
        .unwrap();
    assert!(matches!(parse_p12_metadata(&p12, "pw"), Err(CertError::NoCommonName)));
}

#[test]
fn ssh_bundle_has_no_dns_names() {
    let names = get_dns_names(&record(CertData::SshBundle(vec![1, 2]), "a\0b")).unwrap();
    assert!(names.is_empty());
}

#[test]
fn certificate_in_pem_without_alternative_names_has_none() {
    let pem = get_tls_pem(&new_ca()).unwrap();
    assert!(get_dns_names(&record(CertData::Pem(pem), "")).unwrap().is_empty());
}

#[test]
fn alternative_names_keep_dns_names_in_order() {
    let list = texts(&[Some("a"), None, Some("b"), Some(""), None]);
    let kept: Vec<String> = vec!["a".to_string(), "b".to_string(), String::new()];
    assert_eq!(kept_names(&list), kept);
    assert_eq!(pem_names(&Some(list.clone())), kept);
    assert_eq!(archive_names(&Some(list)).unwrap(), kept);
    assert!(pem_names(&None).is_empty());
    assert!(matches!(archive_names(&None), Err(CertError::NoArchiveSan)));
}

#[test]
fn authority_is_refused_for_each_broken_part() {
    let ca = new_ca();
    let pem = get_tls_pem(&ca).unwrap();
    assert!(matches!(
        parse_ca(b"x", &pem, DataFormat::PEM, 0),
        Err(CertError::CaCertPemParse(_))
    ));
    assert!(matches!(
        parse_ca(b"x", b"y", DataFormat::PEM, 0),
        Err(CertError::CaCertPemParse(_))
    ));
    assert!(matches!(
        parse_ca(&pem, b"x", DataFormat::PEM, 0),
        Err(CertError::CaKeyPemParse(_))
    ));
    assert!(matches!(parse_ca(b"x", b"y", DataFormat::DER, 0), Err(CertError::CaDerParse(_))));
    assert!(matches!(
        parse_ca(&nameless().0, b"y", DataFormat::DER, 0),
        Err(CertError::NoCaCommonName)
    ));
    // The key is not looked into.
    assert_eq!(parse_ca(&ca.cert, b"y", DataFormat::DER, 0).unwrap().key, b"y");
    assert_eq!(parse_ca(&pem, &pem, DataFormat::PEM, 0).unwrap().key, ca.cert);
}

#[test]
fn authority_takes_the_first_name_and_unit() {
    let parsed = |common_names: &[Option<&str>], units: &[Option<&str>]| ParsedCertificate {
        serial: vec![1],
        common_names: texts(common_names),
        units: texts(units),
        not_before: -5,
        not_after: 7,
    };
    let ca = ca_from(
        &parsed(&[Some("one"), Some("two")], &[None, Some("unit")]),
        vec![1],
        vec![2],
        4,
    )
    .unwrap();
    assert_eq!(ca.id, -1);
    assert_eq!(ca.name.cn, "one");
    assert_eq!(ca.name.ou, None);
    assert_eq!(ca.created_on, -5000);
    assert_eq!(ca.valid_until, 7000);
    assert_eq!(ca.ca_type, CAType::TLS);
    assert_eq!((ca.cert, ca.key, ca.crl_number), (vec![1], vec![2], 4));
    assert!(matches!(
        ca_from(&parsed(&[], &[Some("unit")]), vec![], vec![], 0),
        Err(CertError::NoCaCommonName)
    ));
    assert!(matches!(
        ca_from(&parsed(&[None, Some("two")], &[]), vec![], vec![], 0),
        Err(CertError::NoCaCommonName)
    ));
    let ca = ca_from(&parsed(&[Some("")], &[Some("u"), Some("v")]), vec![], vec![], 0).unwrap();
    assert_eq!(ca.name.cn, "");
    assert_eq!(ca.name.ou.as_deref(), Some("u"));
}

#[test]
fn entries_of_a_subject_are_judged_alike() {
    let broken = openssl::error::ErrorStack::get();
    assert_eq!(common_name_of(Some(Ok("a".to_string()))).unwrap(), "a");
    assert!(matches!(common_name_of(Some(Err(broken.clone()))), Err(CertError::OpenSsl(_))));
    assert!(matches!(common_name_of(None), Err(CertError::NoCommonName)));
    assert_eq!(unit_of(Some(Ok("a".to_string()))), Some("a".to_string()));
    assert_eq!(unit_of(Some(Err(broken))), None);
    assert_eq!(unit_of(None), None);
}
