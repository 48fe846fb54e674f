use wardnet::release_verifier::{ReleaseVerifier, ReleaseVerifyError, Sha256MinisignVerifier};

const PUBLIC_KEY: &str = "untrusted comment: minisign public key E7620F1842B4E81F
RWQf6LRCGA9i53mlYecO4IzT51TGPpvWucNSCh1CBM0QTaLn73Y7GFO3
";

const SIGNATURE_OF_TEST: &str = "untrusted comment: signature from minisign secret key
RUQf6LRCGA9i559r3g7V1qNyJDApGip8MfqcadIgT9CuhV3EMhHoN1mGTkUidF/z7SrlQgXdy8ofjb7bNJJylDOocrCo8KLzZwo=
trusted comment: timestamp:1556193335\tfile:test
y/rUw2y8/hOUYjZU71eHp/Wo1KZ40fGy2VJEDl34XMJM+TX48Ss/17u3IvIfbVR1FkZZSNCisQbuQY+bHwhEBg==";

const SHA256_OF_TEST: &str = "9f86d081884c7d659a2feaa0c55ad015a3bf4f1b2b0b822cd15d6c15b0f00a08";

#[test]
fn sha256_matches_published_digest() {
    let verifier = Sha256MinisignVerifier::new(PUBLIC_KEY);
    assert_eq!(verifier.verify_sha256(b"test", SHA256_OF_TEST), Ok(()));
}

#[test]
fn sha256_ignores_case_and_surrounding_whitespace() {
    let verifier = Sha256MinisignVerifier::new(PUBLIC_KEY);
    let sidecar = format!("  {}\n", SHA256_OF_TEST.to_uppercase());
    assert_eq!(verifier.verify_sha256(b"test", &sidecar), Ok(()));
}

#[test]
fn sha256_mismatch_reports_both_digests() {
    let verifier = Sha256MinisignVerifier::new(PUBLIC_KEY);
    let err = verifier.verify_sha256(b"Test", SHA256_OF_TEST).unwrap_err();
    match &err {
        ReleaseVerifyError::Sha256Mismatch { expected, actual } => {
            assert_eq!(expected, SHA256_OF_TEST);
            assert_eq!(actual, "532eaabd9574880dbf76b9b8cc00832c20a6ec113d682299550d7a6e0f345e25");
        }
        other => panic!("unexpected error: {other:?}"),
    }
    assert_eq!(
        err.message(),
        format!(
            "sha256 mismatch: expected={SHA256_OF_TEST}, actual=532eaabd9574880dbf76b9b8cc00832c20a6ec113d682299550d7a6e0f345e25"
        )
    );
}

#[test]
fn signature_verifies_for_signed_data() {
    let verifier = Sha256MinisignVerifier::new(PUBLIC_KEY);
    assert_eq!(verifier.verify_signature(b"test", SIGNATURE_OF_TEST.as_bytes()), Ok(()));
}

#[test]
fn signature_rejected_for_other_data() {
    let verifier = Sha256MinisignVerifier::new(PUBLIC_KEY);
    let err = verifier
        .verify_signature(b"Test", SIGNATURE_OF_TEST.as_bytes())
        .unwrap_err();
    assert!(matches!(err, ReleaseVerifyError::SignatureRejected { .. }));
    assert!(err.message().starts_with("signature verification failed: "));
}

#[test]
fn invalid_public_key_is_reported_first() {
    let verifier = Sha256MinisignVerifier::new("not a key");
    let err = verifier.verify_signature(b"test", &[0xFF, 0x00]).unwrap_err();
    assert!(matches!(err, ReleaseVerifyError::InvalidPublicKey { .. }));
    assert!(err.message().starts_with("invalid embedded public key: "));
}

#[test]
fn non_utf8_signature_is_refused() {
    let verifier = Sha256MinisignVerifier::new(PUBLIC_KEY);
    let err = verifier.verify_signature(b"test", &[0xFF, 0xFE]).unwrap_err();
    assert!(matches!(err, ReleaseVerifyError::SignatureNotUtf8 { .. }));
    assert!(err.message().starts_with("signature is not utf-8: "));
}

#[test]
fn malformed_signature_is_refused() {
    let verifier = Sha256MinisignVerifier::new(PUBLIC_KEY);
    let err = verifier.verify_signature(b"test", b"garbage").unwrap_err();
    assert!(matches!(err, ReleaseVerifyError::InvalidSignatureFormat { .. }));
    assert!(err.message().starts_with("invalid signature format: "));
}
