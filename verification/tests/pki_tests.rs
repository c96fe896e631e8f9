use centrald::pki::{
    bounded_not_after, certificate_not_after, certificate_serial, identity_request,
    issue_ephemeral_identity, issue_identity_csr, issue_server_identity, issuer_policy, rotate_online_issuers, root_policy,
    validate_recovery_root, IdentityCertificateKind, PkiError, PkiHierarchy, DAY,
};
use rcgen::{
    BasicConstraints, CertificateParams, DistinguishedName, DnType, IsCa, KeyPair, KeyUsagePurpose,
};
use x509_parser::{parse_x509_certificate, pem::parse_x509_pem};

fn now() -> i128 {
    time::OffsetDateTime::now_utc().unix_timestamp_nanos()
}

fn request(name: &str) -> String {
    let key = KeyPair::generate().unwrap();
    let mut params = CertificateParams::default();
    let mut distinguished_name = DistinguishedName::new();
    distinguished_name.push(DnType::CommonName, name);
    params.distinguished_name = distinguished_name;
    params.serialize_request(&key).unwrap().pem().unwrap()
}

#[test]
fn secret_bearing_debug_output_is_redacted() {
    let hierarchy = PkiHierarchy::generate().ok().expect("hierarchy");
    let identity = hierarchy.issue_server("centrald.home.arpa").ok().expect("server identity");
    let authority_debug = hierarchy.server_issuer.debug_text();
    let identity_debug = identity.debug_text();
    assert!(!authority_debug.contains("PRIVATE KEY"));
    assert!(!identity_debug.contains("PRIVATE KEY"));
    assert!(authority_debug.contains("[REDACTED]"));
    assert!(identity_debug.contains("[REDACTED]"));
}

#[test]
fn hierarchy_has_stable_root_fingerprint_and_server_chain() {
    let hierarchy = PkiHierarchy::generate().ok().unwrap();
    assert_eq!(hierarchy.root.certificate_sha256().len(), 64);
    let server = hierarchy.issue_server("centrald.home.arpa").ok().unwrap();
    assert!(server.certificate_chain_pem.matches("BEGIN CERTIFICATE").count() >= 3);
    assert!(server.private_key_pem.contains("PRIVATE KEY"));
    let server_expiry = certificate_not_after(&server.certificate_chain_pem).unwrap();
    let now = now();
    assert!(server_expiry > now + 80 * DAY);
    assert!(server_expiry < now + 100 * DAY);
    let root_expiry = certificate_not_after(&hierarchy.root.certificate_pem()).unwrap();
    assert!(root_expiry < now + 16 * 365 * DAY);
    let issuer_expiry = certificate_not_after(&hierarchy.server_issuer.certificate_pem()).unwrap();
    assert!(issuer_expiry < now + 4 * 365 * DAY);

    let rotated = rotate_online_issuers(
        &hierarchy.root.certificate_pem(),
        &hierarchy.root.private_key_pem(),
    )
    .ok()
    .unwrap();
    assert!(rotated.server_certificate_pem.contains("BEGIN CERTIFICATE"));
    assert!(rotated.client_private_key_pem.contains("PRIVATE KEY"));
    assert!(rotated.admin_private_key_pem.contains("PRIVATE KEY"));
    assert!(!rotated.debug_text().contains("PRIVATE KEY"));
}

#[test]
fn identity_csr_is_bound_to_claimed_name() {
    let hierarchy = PkiHierarchy::generate().ok().unwrap();
    let csr = request("node-1");
    let issue = |csr: &str, name: &str| {
        issue_identity_csr(
            csr,
            name,
            7,
            IdentityCertificateKind::Client,
            &hierarchy.client_issuer.certificate_pem(),
            &hierarchy.client_issuer.private_key_pem(),
            &hierarchy.root.certificate_pem(),
        )
    };

    let issued = issue(&csr, "node-1").unwrap();
    assert_eq!(issued.certificate_chain_pem.matches("BEGIN CERTIFICATE").count(), 3);
    let renewed = issue(&csr, "node-1").unwrap();
    assert_ne!(issued.serial_hex, renewed.serial_hex);
    assert_eq!(issued.serial_hex.len(), 40);
    assert!(matches!(issue(&csr, "different-node"), Err(PkiError::CommonNameMismatch)));
    assert!(matches!(issue(&csr, " "), Err(PkiError::EmptyIdentityName)));
    assert!(matches!(issue("nonsense", "node-1"), Err(PkiError::Rcgen(_))));
    assert_eq!(
        certificate_not_after(&issued.certificate_chain_pem).unwrap(),
        issued.expires_at - issued.expires_at % 1_000_000_000
    );
}

#[test]
fn issued_certificates_carry_their_policy() {
    let hierarchy = PkiHierarchy::generate().ok().unwrap();
    let issued = issue_identity_csr(
        &request("node-1"),
        "node-1",
        7,
        IdentityCertificateKind::Admin,
        &hierarchy.admin_issuer.certificate_pem(),
        &hierarchy.admin_issuer.private_key_pem(),
        &hierarchy.root.certificate_pem(),
    )
    .unwrap();
    let (_, pem) = parse_x509_pem(issued.certificate_chain_pem.as_bytes()).unwrap();
    let (_, certificate) = parse_x509_certificate(&pem.contents).unwrap();
    assert_eq!(certificate.subject().to_string(), "CN=node-1, OU=admin");
    assert_eq!(certificate.issuer().to_string(), "CN=CentralD Admin Issuing CA");
    assert!(!certificate.is_ca());
    let usage = certificate.key_usage().unwrap().unwrap().value;
    assert!(usage.digital_signature() && !usage.key_encipherment() && !usage.key_cert_sign());
    let extended = certificate.extended_key_usage().unwrap().unwrap().value;
    assert!(extended.client_auth && !extended.server_auth);
    assert_eq!(hex::encode(certificate.raw_serial()).trim_start_matches("00"),
        issued.serial_hex.trim_start_matches("00"));
    assert_eq!(
        issued.fingerprint_sha256,
        centrald::pki::certificate_sha256(&pem.contents)
    );

    let server = hierarchy.issue_server("192.0.2.7").ok().unwrap();
    let (_, pem) = parse_x509_pem(server.certificate_chain_pem.as_bytes()).unwrap();
    let (_, certificate) = parse_x509_certificate(&pem.contents).unwrap();
    assert_eq!(certificate.subject().to_string(), "CN=CentralD Server");
    assert_eq!(certificate.subject_alternative_name().unwrap().unwrap().value.general_names.len(), 1);
    let extended = certificate.extended_key_usage().unwrap().unwrap().value;
    assert!(extended.server_auth && !extended.client_auth);
    let key = KeyPair::from_pem(&server.private_key_pem).unwrap();
    assert_eq!(certificate.public_key().subject_public_key.data.as_ref(), key.public_key_raw());

    let (_, pem) = parse_x509_pem(hierarchy.root.certificate_pem().as_bytes()).unwrap();
    let (_, certificate) = parse_x509_certificate(&pem.contents).unwrap();
    assert!(certificate.is_ca());
    assert_eq!(certificate.subject(), certificate.issuer());
    assert_eq!(certificate.basic_constraints().unwrap().unwrap().value.path_len_constraint, None);
    assert_eq!(pem.contents, hierarchy.root.certificate_der);
}

#[test]
fn issued_certificates_expire_before_their_chain() {
    let hierarchy = PkiHierarchy::generate().ok().unwrap();
    let root = certificate_not_after(&hierarchy.root.certificate_pem()).unwrap();
    let issuer = certificate_not_after(&hierarchy.server_issuer.certificate_pem()).unwrap();
    assert!(issuer <= root - DAY);
    let server = hierarchy.issue_server("centrald.home.arpa").ok().unwrap();
    assert!(certificate_not_after(&server.certificate_chain_pem).unwrap() <= issuer - DAY);
}

#[test]
fn ephemeral_identities_are_issued_for_their_own_key() {
    let hierarchy = PkiHierarchy::generate().ok().unwrap();
    let issue = |name: &str| {
        issue_ephemeral_identity(
            name,
            IdentityCertificateKind::Client,
            &hierarchy.client_issuer.certificate_pem(),
            &hierarchy.client_issuer.private_key_pem(),
            &hierarchy.root.certificate_pem(),
        )
    };
    let identity = issue("health-probe").ok().unwrap();
    let (_, pem) = parse_x509_pem(identity.certificate_chain_pem.as_bytes()).unwrap();
    let (_, certificate) = parse_x509_certificate(&pem.contents).unwrap();
    let key = KeyPair::from_pem(&identity.private_key_pem).unwrap();
    assert_eq!(certificate.public_key().subject_public_key.data.as_ref(), key.public_key_raw());
    assert_eq!(certificate.subject().to_string(), "CN=health-probe, OU=client");
    assert!(matches!(issue("  "), Err(PkiError::EmptyIdentityName)));
}

#[test]
fn identity_requests_can_be_signed() {
    let hierarchy = PkiHierarchy::generate().ok().unwrap();
    let request = identity_request("node-1").ok().unwrap();
    assert!(request.csr_pem.contains("BEGIN CERTIFICATE REQUEST"));
    let issued = issue_identity_csr(
        &request.csr_pem,
        "node-1",
        7,
        IdentityCertificateKind::Client,
        &hierarchy.client_issuer.certificate_pem(),
        &hierarchy.client_issuer.private_key_pem(),
        &hierarchy.root.certificate_pem(),
    )
    .unwrap();
    let (_, pem) = parse_x509_pem(issued.certificate_chain_pem.as_bytes()).unwrap();
    let (_, certificate) = parse_x509_certificate(&pem.contents).unwrap();
    let key = KeyPair::from_pem(&request.private_key_pem).unwrap();
    assert_eq!(certificate.public_key().subject_public_key.data.as_ref(), key.public_key_raw());
}

#[test]
fn authorities_are_planned() {
    let root = root_policy(1_000 * DAY, vec![3; 20]);
    assert_eq!(root.common_name, "CentralD Offline Root CA");
    assert_eq!(root.authority, IsCa::Ca(BasicConstraints::Unconstrained));
    assert_eq!((root.not_before, root.not_after), (999 * DAY, 6_475 * DAY));
    assert_eq!(
        root.key_uses,
        vec![
            KeyUsagePurpose::KeyCertSign,
            KeyUsagePurpose::CrlSign,
            KeyUsagePurpose::DigitalSignature
        ]
    );
    let issuer = issuer_policy("Issuer", 1_500 * DAY, 1_000 * DAY, vec![3; 20]).unwrap();
    assert_eq!(issuer.authority, IsCa::Ca(BasicConstraints::Constrained(0)));
    assert_eq!(issuer.not_after, 1_499 * DAY);
    assert_eq!(
        issuer_policy("Issuer", 1_121 * DAY, 1_000 * DAY, vec![3; 20]).unwrap_err().message(),
        "online issuing CA cannot be issued because its signing chain expires too soon (1973-01-25 0:00:00.0 +00:00:00)"
    );
    assert!(matches!(
        issuer_policy("Issuer", 1_121 * DAY, 1_000 * DAY, vec![3; 20]),
        Err(PkiError::InsufficientSigningValidity { available_until, .. })
            if available_until == 1_120 * DAY
    ));
}

#[test]
fn child_validity_is_capped_by_the_signing_chain() {
    let now = now();
    let parent = now + 45 * DAY;
    let expiry = bounded_not_after(now, 90, "test leaf", &vec![parent], 31)
        .expect("45-day parent should permit a bounded leaf");
    assert!(expiry <= parent - DAY);
    assert!(expiry > now + 31 * DAY);
}

#[test]
fn issuance_fails_before_a_renewal_window_can_be_honored() {
    let now = now();
    let result = bounded_not_after(now, 90, "test leaf", &vec![now + 20 * DAY], 31);
    assert!(matches!(result, Err(PkiError::InsufficientSigningValidity { .. })));
}

#[test]
fn serials_are_positive() {
    assert_eq!(certificate_serial(vec![0xff; 20])[0], 0x7f);
    let zero = certificate_serial(vec![0; 20]);
    assert_eq!(zero[19], 1);
    assert!(zero[..19].iter().all(|byte| *byte == 0));
}

#[test]
fn an_issuer_whose_name_cannot_be_written_is_refused() {
    let key = KeyPair::generate().unwrap();
    let mut params = CertificateParams::default();
    let mut name = DistinguishedName::new();
    name.push(DnType::CustomDnType(vec![2, 41, 1]), "issuer");
    params.distinguished_name = name;
    params.is_ca = IsCa::Ca(BasicConstraints::Unconstrained);
    params.key_usages = vec![KeyUsagePurpose::KeyCertSign];
    let issuer = params.self_signed(&key).unwrap().pem();
    let refused = |result: PkiError| {
        matches!(result, PkiError::CertificateParse(text) if text == "issuer name cannot be written")
    };
    assert!(refused(
        issue_identity_csr(
            &request("node-1"),
            "node-1",
            7,
            IdentityCertificateKind::Client,
            &issuer,
            &key.serialize_pem(),
            &issuer,
        )
        .err()
        .unwrap()
    ));
    assert!(refused(
        issue_server_identity("example.test", &issuer, &key.serialize_pem(), &issuer).err().unwrap()
    ));
    assert!(refused(rotate_online_issuers(&issuer, &key.serialize_pem()).err().unwrap()));
}

#[test]
fn every_moment_that_can_be_written_is_read_back() {
    let key = KeyPair::generate().unwrap();
    for seconds in [
        -62_167_219_200_i64,
        -59_958_144_000,
        -631_152_001,
        -631_152_000,
        2_524_607_999,
        2_524_608_000,
        253_402_300_799,
    ] {
        let mut params = CertificateParams::default();
        params.not_before = time::OffsetDateTime::from_unix_timestamp(-62_167_219_200).unwrap();
        params.not_after = time::OffsetDateTime::from_unix_timestamp(seconds).unwrap();
        let pem = params.self_signed(&key).unwrap().pem();
        assert_eq!(certificate_not_after(&pem).unwrap(), i128::from(seconds) * 1_000_000_000);
    }
    assert_eq!(centrald::pki::FIRST_WRITABLE, -62_167_219_200_000_000_000);
}

#[test]
fn an_issuer_with_any_other_name_can_sign() {
    let key = KeyPair::generate().unwrap();
    let mut params = CertificateParams::default();
    let mut name = DistinguishedName::new();
    name.push(DnType::CustomDnType(vec![2, 39, 1]), "issuer");
    name.push(DnType::CustomDnType(vec![1, 39, 1 << 40]), "issuer");
    params.distinguished_name = name;
    params.is_ca = IsCa::Ca(BasicConstraints::Unconstrained);
    params.key_usages = vec![KeyUsagePurpose::KeyCertSign];
    let issuer = params.self_signed(&key).unwrap().pem();
    let server =
        issue_server_identity("example.test", &issuer, &key.serialize_pem(), &issuer).ok().unwrap();
    let (_, pem) = parse_x509_pem(server.certificate_chain_pem.as_bytes()).unwrap();
    let (_, certificate) = parse_x509_certificate(&pem.contents).unwrap();
    let (_, above) = parse_x509_pem(issuer.as_bytes()).unwrap();
    let (_, above) = parse_x509_certificate(&above.contents).unwrap();
    assert_eq!(certificate.issuer().as_raw(), above.subject().as_raw());
}

#[test]
fn an_issuer_is_the_first_block_of_its_text() {
    let hierarchy = PkiHierarchy::generate().ok().unwrap();
    let text = format!(
        "x{}{}",
        hierarchy.client_issuer.certificate_pem, hierarchy.server_issuer.certificate_pem
    );
    let server = issue_server_identity(
        "example.test",
        &text,
        &hierarchy.client_issuer.private_key_pem,
        &hierarchy.root.certificate_pem,
    )
    .ok()
    .unwrap();
    let (_, pem) = parse_x509_pem(server.certificate_chain_pem.as_bytes()).unwrap();
    let (_, certificate) = parse_x509_certificate(&pem.contents).unwrap();
    assert_eq!(certificate.issuer().to_string(), "CN=CentralD Client Issuing CA");
}

#[test]
fn recovery_keys_belong_to_their_root() {
    let first = PkiHierarchy::generate().ok().unwrap();
    let second = PkiHierarchy::generate().ok().unwrap();
    assert!(validate_recovery_root(&first.root.certificate_pem, &first.root.private_key_pem).is_ok());
    assert!(matches!(
        validate_recovery_root(&first.root.certificate_pem, &second.root.private_key_pem),
        Err(PkiError::CertificateParse(text))
            if text == "offline root recovery private key does not match the root certificate"
    ));
    assert!(validate_recovery_root("nonsense", &first.root.private_key_pem).is_err());
    assert!(validate_recovery_root(&first.root.certificate_pem, "nonsense").is_err());
    assert!(matches!(
        issue_server_identity(
            " ",
            &first.server_issuer.certificate_pem,
            &first.server_issuer.private_key_pem,
            &first.root.certificate_pem
        ),
        Err(PkiError::EmptyPublicHost)
    ));
    assert!(matches!(
        issue_server_identity(
            "example.test",
            &first.server_issuer.certificate_pem,
            "nonsense",
            &first.root.certificate_pem
        ),
        Err(PkiError::Rcgen(text)) if text == KeyPair::from_pem("nonsense").unwrap_err().to_string()
    ));
    assert!(matches!(
        issue_server_identity(
            "exämple.test",
            &first.server_issuer.certificate_pem,
            &first.server_issuer.private_key_pem,
            &first.root.certificate_pem
        ),
        Err(PkiError::Rcgen(text))
            if text == CertificateParams::new(vec!["exämple.test".to_owned()]).unwrap_err().to_string()
    ));
}
