use secure_keys::error::{ErrorKind, SecurityModuleError};
use secure_keys::key::{Algorithm, HashAlgorithm, KeyAlgorithmSpec, KeyIdentifier, KeyType};
use secure_keys::outcome::{
    decode, decode_flag, initialization_result, FailureKind, OperationOutcome,
};

#[test]
fn decode_success_returns_payload_unchanged() {
    let payload = vec![0x00u8, 0xff, 0xc3, 0x28, 0x80];
    let r = decode(OperationOutcome::Success(payload.clone()), ErrorKind::Encryption);
    assert_eq!(r, Ok(payload));
}

#[test]
fn decode_success_with_empty_payload() {
    let r = decode(OperationOutcome::Success(Vec::new()), ErrorKind::Signing);
    assert_eq!(r, Ok(Vec::new()));
}

#[test]
fn decode_failed_operation_takes_expected_kind() {
    let r = decode(
        OperationOutcome::Failure(FailureKind::Operation, "no entropy".to_string()),
        ErrorKind::Signing,
    );
    assert_eq!(r, Err(SecurityModuleError::SigningError("no entropy".to_string(), None)));
    let r = decode(
        OperationOutcome::Failure(FailureKind::Operation, "bad padding".to_string()),
        ErrorKind::Decryption,
    );
    assert_eq!(r, Err(SecurityModuleError::DecryptionError("bad padding".to_string(), None)));
    let r = decode(
        OperationOutcome::Failure(FailureKind::Operation, "too long".to_string()),
        ErrorKind::Encryption,
    );
    assert_eq!(r, Err(SecurityModuleError::EncryptionError("too long".to_string(), None)));
}

#[test]
fn decode_specific_failures_keep_their_kind() {
    let cases = [
        (FailureKind::DataConversion, ErrorKind::DataConversion),
        (FailureKind::BackendUnavailable, ErrorKind::BackendUnavailable),
        (FailureKind::UnsupportedAlgorithm, ErrorKind::UnsupportedAlgorithm),
        (FailureKind::KeyNotFound, ErrorKind::KeyNotFound),
        (FailureKind::Backend, ErrorKind::Backend),
    ];
    for (failure, kind) in cases {
        let r = decode(
            OperationOutcome::Failure(failure, "detail".to_string()),
            ErrorKind::Encryption,
        );
        let e = r.unwrap_err();
        assert_eq!(e.kind(), kind);
        assert_eq!(e.message(), "detail");
    }
}

#[test]
fn failure_kind_maps_to_error_kind() {
    assert_eq!(FailureKind::Operation.error_kind(ErrorKind::Signing), ErrorKind::Signing);
    assert_eq!(
        FailureKind::Operation.error_kind(ErrorKind::SignatureVerification),
        ErrorKind::SignatureVerification
    );
    assert_eq!(FailureKind::KeyNotFound.error_kind(ErrorKind::Signing), ErrorKind::KeyNotFound);
    assert_eq!(FailureKind::Backend.error_kind(ErrorKind::Signing), ErrorKind::Backend);
}

#[test]
fn decode_flag_accepts_the_two_canonical_payloads() {
    let yes = decode_flag(
        OperationOutcome::Success(b"true".to_vec()),
        ErrorKind::SignatureVerification,
    );
    assert_eq!(yes, Ok(true));
    let no = decode_flag(
        OperationOutcome::Success(b"false".to_vec()),
        ErrorKind::SignatureVerification,
    );
    assert_eq!(no, Ok(false));
}

#[test]
fn decode_flag_rejects_any_other_success_payload() {
    let odd: [&[u8]; 7] = [b"", b"True", b"TRUE", b"1", b"true ", b"fals", b"falsy"];
    for payload in odd {
        let r = decode_flag(
            OperationOutcome::Success(payload.to_vec()),
            ErrorKind::SignatureVerification,
        );
        let e = r.unwrap_err();
        assert_eq!(e.kind(), ErrorKind::Backend);
        assert_eq!(
            e.message(),
            "backend reported success with a payload that is neither true nor false"
        );
    }
}

#[test]
fn decode_flag_failure_is_decoded_like_any_failure() {
    let r = decode_flag(
        OperationOutcome::Failure(FailureKind::Operation, "key locked".to_string()),
        ErrorKind::SignatureVerification,
    );
    assert_eq!(
        r,
        Err(SecurityModuleError::SignatureVerificationError("key locked".to_string(), None))
    );
    let r = decode_flag(
        OperationOutcome::Failure(FailureKind::Backend, "enclave reset".to_string()),
        ErrorKind::SignatureVerification,
    );
    assert_eq!(r, Err(SecurityModuleError::BackendError("enclave reset".to_string(), None)));
}

#[test]
fn native_reply_becomes_tagged_outcome() {
    let done = OperationOutcome::from_native(true, "h\u{e9}llo".to_string());
    assert_eq!(done, OperationOutcome::Success(vec![0x68, 0xc3, 0xa9, 0x6c, 0x6c, 0x6f]));
    let failed = OperationOutcome::from_native(false, "Error: no key".to_string());
    assert_eq!(
        failed,
        OperationOutcome::Failure(FailureKind::Operation, "Error: no key".to_string())
    );
    let odd = OperationOutcome::from_native(true, "Error is just a word".to_string());
    assert_eq!(odd, OperationOutcome::Success(b"Error is just a word".to_vec()));
}

#[test]
fn initialization_failure_is_backend_unavailable() {
    assert_eq!(initialization_result(true), Ok(()));
    assert_eq!(
        initialization_result(false),
        Err(SecurityModuleError::BackendUnavailable(
            "backend could not be initialised".to_string(),
            None,
        ))
    );
}

#[test]
fn error_new_builds_every_variant() {
    let m = || "m".to_string();
    assert_eq!(
        SecurityModuleError::new(ErrorKind::DataConversion, m()),
        SecurityModuleError::DataConversionError(m(), None)
    );
    assert_eq!(
        SecurityModuleError::new(ErrorKind::Signing, m()),
        SecurityModuleError::SigningError(m(), None)
    );
    assert_eq!(
        SecurityModuleError::new(ErrorKind::Encryption, m()),
        SecurityModuleError::EncryptionError(m(), None)
    );
    assert_eq!(
        SecurityModuleError::new(ErrorKind::Decryption, m()),
        SecurityModuleError::DecryptionError(m(), None)
    );
    assert_eq!(
        SecurityModuleError::new(ErrorKind::SignatureVerification, m()),
        SecurityModuleError::SignatureVerificationError(m(), None)
    );
    assert_eq!(
        SecurityModuleError::new(ErrorKind::BackendUnavailable, m()),
        SecurityModuleError::BackendUnavailable(m(), None)
    );
    assert_eq!(
        SecurityModuleError::new(ErrorKind::UnsupportedAlgorithm, m()),
        SecurityModuleError::UnsupportedAlgorithm(m(), None)
    );
    assert_eq!(
        SecurityModuleError::new(ErrorKind::KeyNotFound, m()),
        SecurityModuleError::KeyNotFound(m(), None)
    );
    assert_eq!(
        SecurityModuleError::new(ErrorKind::Backend, m()),
        SecurityModuleError::BackendError(m(), None)
    );
    let e = SecurityModuleError::new(ErrorKind::KeyNotFound, "k9 is unknown".to_string());
    assert_eq!(e.kind(), ErrorKind::KeyNotFound);
    assert_eq!(e.message(), "k9 is unknown");
}

#[test]
fn key_identifier_must_not_be_empty() {
    assert!(KeyIdentifier::new(String::new()).is_none());
    let id = KeyIdentifier::new("k1".to_string()).unwrap();
    assert_eq!(id.as_str(), "k1");
    assert_eq!(id.clone().as_str(), "k1");
    let spaced = KeyIdentifier::new(" ".to_string()).unwrap();
    assert_eq!(spaced.as_str(), " ");
}

#[test]
fn algorithm_names_at_the_boundary() {
    assert_eq!(Algorithm::Ec256.name(), "EC256");
    assert_eq!(Algorithm::Ec384.name(), "EC384");
    assert_eq!(Algorithm::Ec521.name(), "EC521");
    assert_eq!(Algorithm::Rsa2048.name(), "RSA2048");
    assert_eq!(Algorithm::Rsa3072.name(), "RSA3072");
    assert_eq!(Algorithm::Rsa4096.name(), "RSA4096");
    assert_eq!(HashAlgorithm::Sha1.name(), "SHA1");
    assert_eq!(HashAlgorithm::Sha224.name(), "SHA224");
    assert_eq!(HashAlgorithm::Sha256.name(), "SHA256");
    assert_eq!(HashAlgorithm::Sha384.name(), "SHA384");
    assert_eq!(HashAlgorithm::Sha512.name(), "SHA512");
    assert_eq!(KeyType::EllipticCurve.name(), "EC");
    assert_eq!(KeyType::Rsa.name(), "RSA");
    let a = KeyAlgorithmSpec {
        algorithm: Algorithm::Ec256,
        hash: HashAlgorithm::Sha256,
        key_type: KeyType::EllipticCurve,
    };
    let b = KeyAlgorithmSpec { hash: HashAlgorithm::Sha384, ..a };
    assert_eq!(a, a);
    assert_ne!(a, b);
}

#[test]
fn error_cause_is_optional_and_kept() {
    let plain = SecurityModuleError::new(ErrorKind::Signing, "could not sign".to_string());
    assert!(plain.cause().is_none());
    let inner = SecurityModuleError::new(ErrorKind::BackendUnavailable, "enclave asleep".to_string());
    let outer = plain.with_cause(inner);
    assert_eq!(outer.kind(), ErrorKind::Signing);
    assert_eq!(outer.message(), "could not sign");
    assert_eq!(
        outer.cause(),
        Some(&SecurityModuleError::BackendUnavailable("enclave asleep".to_string(), None))
    );
    assert_eq!(
        outer,
        SecurityModuleError::SigningError(
            "could not sign".to_string(),
            Some(Box::new(SecurityModuleError::BackendUnavailable(
                "enclave asleep".to_string(),
                None
            )))
        )
    );
    let replaced = outer
        .with_cause(SecurityModuleError::new(ErrorKind::KeyNotFound, "k1".to_string()));
    assert_eq!(replaced.cause().map(|c| c.kind()), Some(ErrorKind::KeyNotFound));
    assert_eq!(replaced.cause().and_then(|c| c.cause()), None);
}

#[test]
fn decoded_errors_have_no_cause() {
    let r = decode(
        OperationOutcome::Failure(FailureKind::KeyNotFound, "gone".to_string()),
        ErrorKind::Decryption,
    );
    assert!(r.unwrap_err().cause().is_none());
    let r = decode_flag(OperationOutcome::Success(b"yes".to_vec()), ErrorKind::SignatureVerification);
    assert!(r.unwrap_err().cause().is_none());
    assert!(initialization_result(false).unwrap_err().cause().is_none());
}
