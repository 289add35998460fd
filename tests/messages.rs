use rcgen::Error;

fn all_payload_free() -> Vec<Error> {
    vec![
        Error::CouldNotParseCertificate,
        Error::CouldNotParseCertificationRequest,
        Error::CouldNotParseKeyPair,
        Error::InvalidNameType,
        Error::KeyGenerationUnavailable,
        Error::UnsupportedExtension,
        Error::UnsupportedSignatureAlgorithm,
        Error::RingUnspecified,
        Error::CertificateKeyPairMismatch,
        Error::Time,
        Error::RemoteKeyError,
        Error::UnsupportedInCsr,
        Error::InvalidCrlNextUpdate,
        Error::IssuerNotCrlSigner,
    ]
}

#[test]
fn fixed_messages() {
    let expected = [
        "Could not parse certificate",
        "Could not parse certificate signing request",
        "Could not parse key pair",
        "Invalid subject alternative name type",
        "There is no support for generating keys for the given algorithm",
        "Unsupported extension requested in CSR",
        "The requested signature algorithm is not supported",
        "Unspecified ring error",
        "The provided certificate's signature algorithm is incompatible with the given key pair",
        "Time error",
        "Remote key error",
        "Certificate parameter unsupported in CSR",
        "Invalid CRL next update parameter",
        "CRL issuer must specify no key usage, or key usage including cRLSign",
    ];
    let errors = all_payload_free();
    assert_eq!(errors.len(), expected.len());
    for (e, m) in errors.iter().zip(expected.iter()) {
        assert_eq!(e.to_string(), *m);
    }
}

#[test]
fn every_message_is_one_nonempty_line() {
    let mut errors = all_payload_free();
    errors.push(Error::InvalidIpAddressOctetLength(0));
    errors.push(Error::RingKeyRejected(String::new()));
    errors.push(Error::PemError(pem::PemError::MissingData));
    for e in errors.iter() {
        let m = e.to_string();
        assert!(!m.is_empty());
        assert!(!m.contains('\n'));
    }
}

#[test]
fn same_value_same_message() {
    let a = Error::RingKeyRejected(String::from("TooSmall"));
    let b = Error::RingKeyRejected(String::from("TooSmall"));
    assert_eq!(a.to_string(), b.to_string());
    assert_eq!(
        Error::InvalidIpAddressOctetLength(7).to_string(),
        Error::InvalidIpAddressOctetLength(7).to_string()
    );
}

#[test]
fn octet_length_shown_in_decimal() {
    assert_eq!(
        Error::InvalidIpAddressOctetLength(5).to_string(),
        "Invalid IP address octet length of 5 bytes"
    );
    assert_eq!(
        Error::InvalidIpAddressOctetLength(0).to_string(),
        "Invalid IP address octet length of 0 bytes"
    );
    assert_eq!(
        Error::InvalidIpAddressOctetLength(10).to_string(),
        "Invalid IP address octet length of 10 bytes"
    );
    assert_eq!(
        Error::InvalidIpAddressOctetLength(1203).to_string(),
        "Invalid IP address octet length of 1203 bytes"
    );
}

#[test]
fn octet_length_largest() {
    let m = Error::InvalidIpAddressOctetLength(usize::MAX).to_string();
    assert_eq!(m, format!("Invalid IP address octet length of {} bytes", usize::MAX));
}

#[test]
fn key_rejection_text_kept() {
    assert_eq!(
        Error::RingKeyRejected(String::from("too short")).to_string(),
        "Key rejected by ring: too short"
    );
    assert_eq!(
        Error::RingKeyRejected(String::new()).to_string(),
        "Key rejected by ring: "
    );
}

#[test]
fn pem_error_nested() {
    let e = Error::PemError(pem::PemError::MissingBeginTag);
    assert_eq!(e.to_string(), "PEM error: missing BEGIN tag");
    let e = Error::PemError(pem::PemError::InvalidHeader(String::from("X: y")));
    assert_eq!(e.to_string(), "PEM error: invalid header: X: y");
    let inner = pem::PemError::MissingEndTag;
    let shown = inner.to_string();
    assert_eq!(Error::from_pem_error(inner).to_string(), format!("PEM error: {}", shown));
}

#[test]
fn structural_equality() {
    assert_ne!(
        Error::InvalidIpAddressOctetLength(4),
        Error::InvalidIpAddressOctetLength(16)
    );
    assert_eq!(Error::CouldNotParseCertificate, Error::CouldNotParseCertificate);
    assert_ne!(Error::CouldNotParseCertificate, Error::CouldNotParseKeyPair);
    assert_eq!(
        Error::RingKeyRejected(String::from("a")),
        Error::RingKeyRejected(String::from("a"))
    );
    assert_ne!(
        Error::RingKeyRejected(String::from("a")),
        Error::RingKeyRejected(String::from("b"))
    );
}

#[test]
fn unspecified_ring_failure() {
    let e = Error::from_unspecified(ring::error::Unspecified);
    assert_eq!(e, Error::RingUnspecified);
    let f: Error = ring::error::Unspecified.into();
    assert_eq!(f.to_string(), "Unspecified ring error");
}

fn rejected_key() -> ring::error::KeyRejected {
    match ring::signature::Ed25519KeyPair::from_pkcs8(&[0u8, 1, 2]) {
        Err(k) => k,
        Ok(_) => panic!("three bytes were taken as a key"),
    }
}

#[test]
fn key_rejection_from_ring() {
    let k = rejected_key();
    let text = k.to_string();
    assert!(!text.is_empty());
    let e = Error::from_key_rejected(k);
    assert_eq!(e, Error::RingKeyRejected(text.clone()));
    assert_eq!(e.to_string(), format!("Key rejected by ring: {}", text));
    let f: Error = rejected_key().into();
    assert_eq!(f, Error::RingKeyRejected(text));
}

#[test]
fn pem_failure_from_codec() {
    let err = match pem::parse("no pem here") {
        Err(err) => err,
        Ok(_) => panic!("plain text was taken as PEM"),
    };
    let shown = err.to_string();
    assert!(!shown.is_empty());
    let e: Error = err.into();
    assert!(matches!(e, Error::PemError(_)));
    assert_eq!(e.to_string(), format!("PEM error: {}", shown));
    assert_eq!(
        Error::from_pem_error(pem::PemError::MissingData),
        Error::PemError(pem::PemError::MissingData)
    );
}
