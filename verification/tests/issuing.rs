use openssl::asn1::Asn1Time;
use openssl::hash::MessageDigest;
use openssl::pkey::PKey;
use openssl::pkey::Private;
use openssl::x509::X509NameBuilder;
use openssl::x509::X509Req;
use openssl::x509::X509;
use tls_cert::acme::check_names;
use tls_cert::acme::generate_asn1_serial_number;
use tls_cert::acme::issue_cert_from_csr;
use tls_cert::acme::issue_at;
use tls_cert::acme::issue_certificate;
use tls_cert::acme::refuse_unverified;
use tls_cert::clock::ClockReading;
use tls_cert::acme::issued_parts;
use tls_cert::builder::TLSCertificateBuilder;
use tls_cert::model::CertData;
use tls_cert::model::CertError;
use tls_cert::model::Certificate;
use tls_cert::model::CertificateRenewMethod;
use tls_cert::model::CertificateType;
use tls_cert::model::Name;
use tls_cert::model::TimespanUnit;
use tls_cert::model::CA;
use tls_cert::reading::extract_pem_serial_number;
use tls_cert::reading::get_dns_names;
use tls_cert::reading::get_tls_pem;
use x509_parser::prelude::FromDer;
use x509_parser::prelude::X509Certificate;

fn new_ca() -> CA {
    TLSCertificateBuilder::new()
        .unwrap()
        .set_name(Name { cn: "Root".to_string(), ou: None })
        .unwrap()
        .set_valid_until(1, TimespanUnit::Year)
        .unwrap()
        .build_ca()
        .unwrap()
}

fn names(list: &[&str]) -> Vec<String> {
    list.iter().map(|s| s.to_string()).collect()
}

fn new_key() -> PKey<Private> {
    let key = rcgen::KeyPair::generate_for(&rcgen::PKCS_ECDSA_P256_SHA256).unwrap();
    PKey::private_key_from_der(&key.serialize_der()).unwrap()
}

fn request(key: &PKey<Private>, signer: &PKey<Private>) -> Vec<u8> {
    let mut subject = X509NameBuilder::new().unwrap();
    subject.append_entry_by_text("CN", "ignored").unwrap();
    let mut builder = X509Req::builder().unwrap();
    builder.set_subject_name(&subject.build()).unwrap();
    builder.set_pubkey(key).unwrap();
    builder.sign(signer, MessageDigest::sha256()).unwrap();
    builder.build().to_der().unwrap()
}

fn record(pem: Vec<u8>) -> Certificate {
    Certificate {
        id: 1,
        name: Name { cn: "x".to_string(), ou: None },
        created_on: 0,
        valid_until: 0,
        certificate_type: CertificateType::TLSServer,
        data: CertData::Pem(pem),
        password: String::new(),
        ca_id: 1,
        user_id: 1,
        renew_method: CertificateRenewMethod::NoRenewal,
        revoked_at: None,
    }
}

fn text_of(cert: &X509, nid: openssl::nid::Nid) -> Vec<String> {
    cert.subject_name().entries_by_nid(nid).map(|e| e.data().to_string().unwrap()).collect()
}

#[test]
fn issued_certificate_answers_the_request() {
    let ca = new_ca();
    let key = new_key();
    let dns = names(&["a.example", "b.example", "*.c.example"]);
    let before = std::time::SystemTime::now()
        .duration_since(std::time::UNIX_EPOCH)
        .unwrap()
        .as_secs() as i64;
    let (cert_pem, chain_pem, serial) =
        issue_cert_from_csr(&request(&key, &key), &ca, 90, &dns).unwrap();
    let cert = X509::from_pem(&cert_pem).unwrap();
    let ca_cert = X509::from_der(&ca.cert).unwrap();

    assert!(cert.verify(&ca_cert.public_key().unwrap()).unwrap());
    assert!(cert.public_key().unwrap().public_eq(&key));
    assert_eq!(cert.version(), 2);
    assert_eq!(text_of(&cert, openssl::nid::Nid::COMMONNAME), names(&["a.example"]));
    assert_eq!(text_of(&cert, openssl::nid::Nid::ORGANIZATIONALUNITNAME), names(&["ACME"]));
    assert_eq!(
        cert.issuer_name().to_der().unwrap(),
        ca_cert.subject_name().to_der().unwrap()
    );
    assert_eq!(cert.serial_number().to_bn().unwrap().to_vec(), serial);
    assert!(serial.len() <= 8);
    let lasts = cert.not_before().diff(cert.not_after()).unwrap();
    assert!(lasts.days == 90 && lasts.secs <= 60);
    let since = Asn1Time::from_unix(before).unwrap().diff(cert.not_before()).unwrap();
    assert!(since.days == 0 && (0..60).contains(&since.secs));

    let der = cert.to_der().unwrap();
    let (_, parsed) = X509Certificate::from_der(&der).unwrap();
    assert!(!parsed.basic_constraints().unwrap().unwrap().value.ca);
    let usage = parsed.key_usage().unwrap().unwrap();
    assert!(usage.value.digital_signature() && usage.value.key_encipherment());
    assert!(!usage.value.key_cert_sign());
    let extended = parsed.extended_key_usage().unwrap().unwrap();
    assert!(extended.value.server_auth && !extended.value.client_auth);
    assert!(cert.subject_key_id().is_some());

    let mut chain = cert_pem.clone();
    chain.extend_from_slice(&get_tls_pem(&ca).unwrap());
    assert_eq!(chain_pem, chain);
    assert_eq!(get_dns_names(&record(cert_pem)).unwrap(), dns);
    assert_eq!(get_dns_names(&record(chain_pem)).unwrap(), dns);
}

#[test]
fn issued_serial_number_is_read_from_pem() {
    let ca = new_ca();
    let key = new_key();
    for _ in 0..5 {
        let (cert_pem, chain_pem, serial) =
            issue_cert_from_csr(&request(&key, &key), &ca, 1, &names(&["a"])).unwrap();
        assert_eq!(extract_pem_serial_number(&cert_pem).unwrap(), serial);
        assert_eq!(extract_pem_serial_number(&chain_pem).unwrap(), serial);
    }
}

#[test]
fn request_without_dns_names_gets_a_fixed_name() {
    let ca = new_ca();
    let key = new_key();
    let (cert_pem, chain_pem, _) = issue_cert_from_csr(&request(&key, &key), &ca, 1, &[]).unwrap();
    let cert = X509::from_pem(&cert_pem).unwrap();
    assert_eq!(text_of(&cert, openssl::nid::Nid::COMMONNAME), names(&["acme"]));
    assert!(cert.subject_alt_names().is_none());
    assert_eq!(get_dns_names(&record(cert_pem)).unwrap(), names(&[]));
    assert_eq!(get_dns_names(&record(chain_pem)).unwrap(), names(&[]));
}

#[test]
fn dns_names_in_pem_ignore_the_password() {
    let ca = new_ca();
    let key = new_key();
    let dns = names(&["a", "b", "a"]);
    let (cert_pem, _, _) = issue_cert_from_csr(&request(&key, &key), &ca, 1, &dns).unwrap();
    let other = Certificate { password: "a\0b".to_string(), ..record(cert_pem.clone()) };
    assert_eq!(get_dns_names(&record(cert_pem)).unwrap(), dns);
    assert_eq!(get_dns_names(&other).unwrap(), dns);
}

#[test]
fn same_values_are_put_into_equal_certificates() {
    let ca = new_ca();
    let spki = new_key().public_key_to_der().unwrap();
    let dns = names(&["a"]);
    let issue = || issue_certificate(&spki, &ca.cert, &ca.key, &[7], 5, 9, &dns).unwrap();
    let (one, two) = (issue(), issue());
    let (_, one) = X509Certificate::from_der(&one).unwrap();
    let (_, two) = X509Certificate::from_der(&two).unwrap();
    assert_eq!(one.tbs_certificate.as_ref(), two.tbs_certificate.as_ref());
}

#[test]
fn verified_request_needs_a_readable_authority() {
    let ca = new_ca();
    let spki = new_key().public_key_to_der().unwrap();
    let dns = names(&["a"]);
    assert!(matches!(
        issue_certificate(&spki, b"x", &ca.key, &[7], 5, 9, &dns),
        Err(CertError::OpenSsl(_))
    ));
    assert!(matches!(
        issue_certificate(&spki, &ca.cert, b"x", &[7], 5, 9, &dns),
        Err(CertError::OpenSsl(_))
    ));
}

#[test]
fn request_with_a_foreign_signature_is_refused() {
    let ca = new_ca();
    let csr = request(&new_key(), &new_key());
    assert!(matches!(
        issue_cert_from_csr(&csr, &ca, 1, &names(&["a"])),
        Err(CertError::CsrSignature)
    ));
}

#[test]
fn what_cannot_be_read_is_an_error_of_openssl() {
    let ca = new_ca();
    let key = new_key();
    let csr = request(&key, &key);
    let dns = names(&["a"]);
    assert!(matches!(issue_cert_from_csr(b"x", &ca, 1, &dns), Err(CertError::OpenSsl(_))));
    let no_cert = CA { cert: vec![1], ..new_ca() };
    assert!(matches!(issue_cert_from_csr(&csr, &no_cert, 1, &dns), Err(CertError::OpenSsl(_))));
    let no_key = CA { key: vec![1], ..new_ca() };
    assert!(matches!(issue_cert_from_csr(&csr, &no_key, 1, &dns), Err(CertError::OpenSsl(_))));
    // A common name has 64 characters at most, and one at least.
    let long = vec!["x".repeat(65)];
    assert!(matches!(issue_cert_from_csr(&csr, &ca, 1, &long), Err(CertError::OpenSsl(_))));
    assert!(issue_cert_from_csr(&csr, &ca, 1, &["x".repeat(64)]).is_ok());
    assert!(matches!(
        issue_cert_from_csr(&csr, &ca, 1, &names(&[""])),
        Err(CertError::OpenSsl(_))
    ));
}

#[test]
fn days_that_cannot_be_counted_are_an_error() {
    let ca = new_ca();
    let key = new_key();
    assert!(matches!(
        issue_cert_from_csr(&request(&key, &key), &ca, u64::MAX, &names(&["a"])),
        Err(CertError::TimeOutOfRange)
    ));
}

#[test]
fn certificate_is_issued_for_the_given_values() {
    let ca = new_ca();
    let key = new_key();
    let spki = key.public_key_to_der().unwrap();
    let dns = names(&["ä.example", "a\0b", ""]);
    let der = issue_certificate(
        &spki,
        &ca.cert,
        &ca.key,
        &[5, 6],
        100,
        4_000_000_000,
        &dns,
    )
    .unwrap();
    let cert = X509::from_der(&der).unwrap();
    assert_eq!(cert.serial_number().to_bn().unwrap().to_vec(), vec![5, 6]);
    assert!(cert.not_before() == Asn1Time::from_unix(100).unwrap());
    assert!(cert.not_after() == Asn1Time::from_unix(4_000_000_000).unwrap());
    assert!(cert.public_key().unwrap().public_eq(&key));
    assert_eq!(text_of(&cert, openssl::nid::Nid::COMMONNAME), names(&["ä.example"]));
    assert_eq!(get_dns_names(&record(cert.to_pem().unwrap())).unwrap(), dns);
}

#[test]
fn days_are_counted_from_the_second_reading() {
    let ca = new_ca();
    let spki = new_key().public_key_to_der().unwrap();
    let dns = names(&["a"]);
    let second = 1_000_000_000u128;
    let issue = |start: ClockReading, end: ClockReading, days: u64| {
        issue_at(&spki, &ca.cert, &ca.key, &[7], &start, &end, days, &dns)
    };
    let after = |nanos: u128| ClockReading::AfterEpoch(nanos);
    let before = |nanos: u128| ClockReading::BeforeEpoch(nanos);
    for (days, end) in [(0u64, 2_003), (1, 88_403), (90, 7_778_003), (36_500, 3_153_602_003)] {
        let der = issue(after(2_001 * second + 999_999_999), after(2_003 * second + 1), days);
        let cert = X509::from_der(&der.unwrap()).unwrap();
        assert!(cert.not_before() == Asn1Time::from_unix(2_001).unwrap());
        assert!(cert.not_after() == Asn1Time::from_unix(end).unwrap());
    }
    let early = issue(after(0), before(86_399 * second), 1).unwrap();
    assert!(X509::from_der(&early).unwrap().not_after() == Asn1Time::from_unix(1).unwrap());
    assert!(matches!(issue(before(1), after(1), 1), Err(CertError::ClockBeforeEpoch)));
    assert!(matches!(issue(after(1), before(1), 0), Err(CertError::ClockBeforeEpoch)));
    assert!(matches!(issue(after(1), after(1), u64::MAX), Err(CertError::TimeOutOfRange)));
    let last = (i64::MAX as u128 + 1) * second;
    assert!(matches!(issue(after(last), after(1), 1), Err(CertError::TimeOutOfRange)));
    assert!(matches!(issue(before(1), after(1), u64::MAX), Err(CertError::ClockBeforeEpoch)));
}

#[test]
fn unverified_request_is_refused() {
    assert!(refuse_unverified(true).is_ok());
    assert!(matches!(refuse_unverified(false), Err(CertError::CsrSignature)));
}

#[test]
fn zero_as_a_serial_number_is_one_byte_in_pem() {
    let ca = new_ca();
    let spki = new_key().public_key_to_der().unwrap();
    let dns = names(&["a"]);
    let der = issue_certificate(&spki, &ca.cert, &ca.key, &[], 0, 1, &dns).unwrap();
    let cert = X509::from_der(&der).unwrap();
    assert_eq!(cert.serial_number().to_bn().unwrap().to_vec(), Vec::<u8>::new());
    assert_eq!(extract_pem_serial_number(&cert.to_pem().unwrap()).unwrap(), vec![0]);
    let high = issue_certificate(&spki, &ca.cert, &ca.key, &[200; 8], 0, 1, &dns).unwrap();
    let pem = X509::from_der(&high).unwrap().to_pem().unwrap();
    assert_eq!(extract_pem_serial_number(&pem).unwrap(), vec![200; 8]);
}

#[test]
fn parts_of_an_answer_are_put_together() {
    let (cert, chain, serial) = issued_parts(vec![1, 2], &vec![3], vec![4]);
    assert_eq!(cert, vec![1, 2]);
    assert_eq!(chain, vec![1, 2, 3]);
    assert_eq!(serial, vec![4]);
}

#[test]
fn serial_numbers_are_random() {
    let one = generate_asn1_serial_number().unwrap();
    let two = generate_asn1_serial_number().unwrap();
    assert_ne!(one, two);
    assert!(one.len() <= 8 && two.len() <= 8);
}

#[test]
fn ordinary_names_fit() {
    assert!(check_names(&[]));
    assert!(check_names(&names(&["a.example", "ä", ""])));
}
