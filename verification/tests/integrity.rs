use base64::prelude::{Engine as _, BASE64_STANDARD};
use safe_npx::contracts::{ArtifactIdentity, Decision, M1Reason};
use safe_npx::download::ArtifactBytes;
use safe_npx::integrity::{
    hex_digest, verify_artifact_integrity, ArtifactVerificationError, ARTIFACT_DIGEST_ALGORITHM,
};
use sha2::{Digest, Sha512};

fn artifact_bytes(bytes: &[u8]) -> ArtifactBytes {
    ArtifactBytes {
        name: "create-example".to_string(),
        version: "1.2.3".to_string(),
        tarball_url: "https://registry.npmjs.org/create-example/-/create-example-1.2.3.tgz".to_string(),
        bytes: bytes.to_vec(),
    }
}

fn integrity_for(bytes: &[u8]) -> String {
    format!("{}-{}", ARTIFACT_DIGEST_ALGORITHM, BASE64_STANDARD.encode(Sha512::digest(bytes)))
}

fn assert_denied_integrity_mismatch(result: Result<ArtifactIdentity, ArtifactVerificationError>) {
    let error = result.expect_err("verification should fail");

    assert_eq!(error.decision, Decision::Deny);
    assert_eq!(error.reason, M1Reason::IntegrityMismatch);
}

#[test]
fn verifies_valid_sha512_integrity() {
    let artifact = artifact_bytes(b"fixture-tarball");
    let integrity = integrity_for(&artifact.bytes);

    let identity = verify_artifact_integrity(&artifact, &integrity).expect("valid integrity should verify");

    assert_eq!(identity.name, "create-example");
    assert_eq!(identity.version, "1.2.3");
    assert_eq!(identity.integrity, integrity);
    assert_eq!(identity.digest_algorithm, ARTIFACT_DIGEST_ALGORITHM);
    assert_eq!(identity.digest, hex_digest(&Sha512::digest(&artifact.bytes).to_vec()));
    assert_eq!(identity.digest.len(), 128);
}

#[test]
fn digest_identity_is_stable() {
    let artifact = artifact_bytes(b"fixture-tarball");
    let integrity = integrity_for(&artifact.bytes);

    let first = verify_artifact_integrity(&artifact, &integrity).expect("first verification should pass");
    let second = verify_artifact_integrity(&artifact, &integrity).expect("second verification should pass");

    assert_eq!(first, second);
}

#[test]
fn denies_integrity_mismatch() {
    let artifact = artifact_bytes(b"fixture-tarball");
    let wrong_integrity = integrity_for(b"different-bytes");

    assert_denied_integrity_mismatch(verify_artifact_integrity(&artifact, &wrong_integrity));
}

#[test]
fn denies_missing_integrity() {
    assert_denied_integrity_mismatch(verify_artifact_integrity(&artifact_bytes(b"fixture-tarball"), ""));
}

#[test]
fn denies_malformed_integrity() {
    assert_denied_integrity_mismatch(verify_artifact_integrity(
        &artifact_bytes(b"fixture-tarball"),
        "sha512:not-a-valid-sri",
    ));
}

#[test]
fn denies_unsupported_integrity_algorithm() {
    assert_denied_integrity_mismatch(verify_artifact_integrity(
        &artifact_bytes(b"fixture-tarball"),
        "sha1-YWJj",
    ));
}

#[test]
fn invalid_base64_digest_names_the_decoder_error() {
    let error = verify_artifact_integrity(&artifact_bytes(b"x"), "sha512-***")
        .expect_err("invalid base64 should fail");

    assert!(error.detail.starts_with("integrity digest is not valid base64: "));
}

#[test]
fn hex_digest_is_lowercase_two_digits_per_byte() {
    assert_eq!(hex_digest(&vec![0x00, 0x0f, 0xa0, 0xff]), "000fa0ff");
}
