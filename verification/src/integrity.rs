//! npm integrity verification and root artifact identity.

use vstd::prelude::*;
use crate::contracts::{ArtifactIdentity, ArtifactIdentityView, Decision, M1Reason};
use crate::download::ArtifactBytes;
use crate::text::{split_once, split_once_str, str_eq, trim, trim_str};

verus! {

/// Supported artifact digest algorithm.
pub const ARTIFACT_DIGEST_ALGORITHM: &'static str = "sha512";

/// What `sha2::Sha512::digest` computes for some bytes.
pub uninterp spec fn sha512_of(data: Seq<u8>) -> Seq<u8>;

/// What `base64`'s standard engine decodes a text to, or its error message.
pub uninterp spec fn base64_standard_decode(text: Seq<char>) -> Result<Seq<u8>, Seq<char>>;

/// SHA-512 digest of the bytes with `sha2::Sha512::digest`.
/// Trusted: the result is `sha512_of` of the input, and (as the `Sha512`
/// output size fixes) 64 bytes long.
#[verifier::external_body]
pub(crate) fn sha512_digest(bytes: &[u8]) -> (r: Vec<u8>)
    ensures
        r@ == sha512_of(bytes@),
        r@.len() == 64,
{
    <sha2::Sha512 as sha2::Digest>::digest(bytes).to_vec()
}

/// Decode standard padded base64 with `base64::engine::general_purpose::STANDARD`.
/// Trusted: the result is `base64_standard_decode` of the text; an error
/// carries the `DecodeError` message.
#[verifier::external_body]
fn base64_decode(text: &str) -> (r: Result<Vec<u8>, String>)
    ensures
        match (r, base64_standard_decode(text@)) {
            (Ok(b), Ok(m)) => b@ == m,
            (Err(e), Err(m)) => e@ == m,
            _ => false,
        },
{
    base64::Engine::decode(&base64::engine::general_purpose::STANDARD, text).map_err(|e| e.to_string())
}

/// Error returned when artifact bytes cannot be verified.
#[derive(Clone, Debug, PartialEq, Eq)]
pub struct ArtifactVerificationError {
    /// Policy decision for the failed verification.
    pub decision: Decision,
    /// Stable reason for the failed verification.
    pub reason: M1Reason,
    /// Short diagnostic detail.
    pub detail: String,
}

impl ArtifactVerificationError {
    /// Create an integrity mismatch denial.
    pub fn integrity_mismatch(detail: &str) -> (r: Self)
        ensures
            r.decision == Decision::Deny,
            r.reason == M1Reason::IntegrityMismatch,
            r.detail@ == detail@,
    {
        ArtifactVerificationError {
            decision: Decision::Deny,
            reason: M1Reason::IntegrityMismatch,
            detail: detail.to_owned(),
        }
    }
}

/// Expected digest bytes of an `sha512-<base64>` integrity string, or the
/// reason the string is refused.
pub open spec fn expected_digest(integrity: Seq<char>) -> Result<Seq<u8>, Seq<char>> {
    if trim(integrity).len() == 0 {
        Err("integrity metadata is missing"@)
    } else {
        match split_once(integrity, '-') {
            None => Err("integrity metadata is malformed"@),
            Some((algorithm, digest)) => if algorithm != ARTIFACT_DIGEST_ALGORITHM@ {
                Err("integrity algorithm is unsupported"@)
            } else if digest.len() == 0 {
                Err("integrity digest is missing"@)
            } else {
                match base64_standard_decode(digest) {
                    Ok(bytes) => Ok(bytes),
                    Err(msg) => Err("integrity digest is not valid base64: "@ + msg),
                }
            },
        }
    }
}

pub open spec fn hex_char(d: u8) -> char {
    if d < 10 {
        (('0' as u8) + d) as char
    } else {
        (('a' as u8) + (d - 10)) as char
    }
}

/// Lowercase hexadecimal text of bytes, two characters per byte.
pub open spec fn hex(bytes: Seq<u8>) -> Seq<char>
    decreases bytes.len(),
{
    if bytes.len() == 0 {
        Seq::empty()
    } else {
        hex(bytes.drop_last()) + seq![hex_char(bytes.last() / 16), hex_char(bytes.last() % 16)]
    }
}

/// Outcome of verifying bytes against integrity metadata.
pub open spec fn verification_model(
    name: Seq<char>,
    version: Seq<char>,
    bytes: Seq<u8>,
    integrity: Seq<char>,
) -> Result<ArtifactIdentityView, Seq<char>> {
    match expected_digest(integrity) {
        Err(detail) => Err(detail),
        Ok(expected) => if expected != sha512_of(bytes) {
            Err("downloaded bytes did not match integrity metadata"@)
        } else {
            Ok(
                ArtifactIdentityView {
                    name,
                    version,
                    integrity,
                    digest_algorithm: ARTIFACT_DIGEST_ALGORITHM@,
                    digest: hex(sha512_of(bytes)),
                },
            )
        },
    }
}

fn parse_sha512_integrity(integrity: &str) -> (r: Result<Vec<u8>, ArtifactVerificationError>)
    ensures
        match (r, expected_digest(integrity@)) {
            (Ok(b), Ok(m)) => b@ == m,
            (Err(e), Err(m)) => e.detail@ == m && e.decision == Decision::Deny && e.reason
                == M1Reason::IntegrityMismatch,
            _ => false,
        },
{
    if trim_str(integrity).unicode_len() == 0 {
        return Err(ArtifactVerificationError::integrity_mismatch("integrity metadata is missing"));
    }
    let (algorithm, digest) = match split_once_str(integrity, '-') {
        Some(pair) => pair,
        None => return Err(ArtifactVerificationError::integrity_mismatch("integrity metadata is malformed")),
    };
    if !str_eq(algorithm, ARTIFACT_DIGEST_ALGORITHM) {
        return Err(ArtifactVerificationError::integrity_mismatch("integrity algorithm is unsupported"));
    }
    if digest.unicode_len() == 0 {
        return Err(ArtifactVerificationError::integrity_mismatch("integrity digest is missing"));
    }
    match base64_decode(digest) {
        Ok(bytes) => Ok(bytes),
        Err(msg) => {
            let mut detail = "integrity digest is not valid base64: ".to_owned();
            detail.append(msg.as_str());
            Err(ArtifactVerificationError::integrity_mismatch(detail.as_str()))
        },
    }
}

fn bytes_eq(a: &Vec<u8>, b: &Vec<u8>) -> (r: bool)
    ensures
        r == (a@ == b@),
{
    if a.len() != b.len() {
        return false;
    }
    let mut i: usize = 0;
    while i < a.len()
        invariant
            a@.len() == b@.len(),
            i <= a@.len(),
            forall|j: int| 0 <= j < i ==> a@[j] == b@[j],
        decreases a@.len() - i,
    {
        if a[i] != b[i] {
            return false;
        }
        i = i + 1;
    }
    assert(a@ =~= b@);
    true
}

pub(crate) fn hex_digit(d: u8) -> (r: &'static str)
    requires
        d < 16,
    ensures
        r@ == seq![hex_char(d)],
{
    if d == 0 { proof { reveal_strlit("0"); } "0" }
    else if d == 1 { proof { reveal_strlit("1"); } "1" }
    else if d == 2 { proof { reveal_strlit("2"); } "2" }
    else if d == 3 { proof { reveal_strlit("3"); } "3" }
    else if d == 4 { proof { reveal_strlit("4"); } "4" }
    else if d == 5 { proof { reveal_strlit("5"); } "5" }
    else if d == 6 { proof { reveal_strlit("6"); } "6" }
    else if d == 7 { proof { reveal_strlit("7"); } "7" }
    else if d == 8 { proof { reveal_strlit("8"); } "8" }
    else if d == 9 { proof { reveal_strlit("9"); } "9" }
    else if d == 10 { proof { reveal_strlit("a"); } "a" }
    else if d == 11 { proof { reveal_strlit("b"); } "b" }
    else if d == 12 { proof { reveal_strlit("c"); } "c" }
    else if d == 13 { proof { reveal_strlit("d"); } "d" }
    else if d == 14 { proof { reveal_strlit("e"); } "e" }
    else { proof { reveal_strlit("f"); } "f" }
}

/// Encode digest bytes as lowercase hexadecimal.
pub fn hex_digest(bytes: &Vec<u8>) -> (r: String)
    ensures
        r@ == hex(bytes@),
{
    let mut out = String::new();
    let mut i: usize = 0;
    while i < bytes.len()
        invariant
            i <= bytes@.len(),
            out@ == hex(bytes@.subrange(0, i as int)),
        decreases bytes@.len() - i,
    {
        let b = bytes[i];
        assert(bytes@.subrange(0, i + 1).drop_last() == bytes@.subrange(0, i as int));
        out.append(hex_digit(b / 16));
        out.append(hex_digit(b % 16));
        i = i + 1;
    }
    assert(bytes@.subrange(0, bytes@.len() as int) == bytes@);
    out
}

/// Verify npm integrity metadata and return stable artifact identity.
pub fn verify_artifact_integrity(artifact_bytes: &ArtifactBytes, integrity: &str) -> (r: Result<
    ArtifactIdentity,
    ArtifactVerificationError,
>)
    ensures
        match (r, verification_model(
            artifact_bytes.name@,
            artifact_bytes.version@,
            artifact_bytes.bytes@,
            integrity@,
        )) {
            (Ok(id), Ok(m)) => id@ == m,
            (Err(e), Err(m)) => e.detail@ == m && e.decision == Decision::Deny && e.reason
                == M1Reason::IntegrityMismatch,
            _ => false,
        },
{
    let expected = match parse_sha512_integrity(integrity) {
        Ok(b) => b,
        Err(e) => return Err(e),
    };
    let actual = sha512_digest(artifact_bytes.bytes.as_slice());
    if !bytes_eq(&expected, &actual) {
        return Err(ArtifactVerificationError::integrity_mismatch(
            "downloaded bytes did not match integrity metadata",
        ));
    }
    Ok(
        ArtifactIdentity {
            name: artifact_bytes.name.clone(),
            version: artifact_bytes.version.clone(),
            integrity: integrity.to_owned(),
            digest_algorithm: ARTIFACT_DIGEST_ALGORITHM.to_owned(),
            digest: hex_digest(&actual),
        },
    )
}

/// Verification accepts exactly the bytes whose SHA-512 digest is the one
/// the integrity metadata encodes; anything else is refused as a mismatch.
pub proof fn law_integrity_accepts_only_matching_digest(
    name: Seq<char>,
    version: Seq<char>,
    bytes: Seq<u8>,
    integrity: Seq<char>,
)
    ensures
        verification_model(name, version, bytes, integrity) is Ok <==> expected_digest(integrity)
            == Ok::<Seq<u8>, Seq<char>>(sha512_of(bytes)),
{
}

} // verus!
