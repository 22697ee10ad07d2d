//! Executable byte identity of a selected bin: where the file may lie, what
//! its identity records, and why identity is refused.

use vstd::prelude::*;
use crate::authority_context::path_starts_with;
use crate::bin_selection::SelectedPackageBin;
use crate::closure::{ClosureDecision, ExecutableFileIdentity, ExecutableFileSource, M2Reason};
use crate::integrity::{hex, hex_digest, sha512_digest, sha512_of};
use crate::text::concat2;

verus! {

/// Digest algorithm of executable file identity.
pub const EXECUTABLE_DIGEST_ALGORITHM: &'static str = "sha512";

/// Error returned when executable identity cannot be proven.
#[derive(Clone, Debug, PartialEq, Eq)]
pub struct ExecutableIdentityError {
    /// Conservative decision for the failure.
    pub decision: ClosureDecision,
    /// Stable reason for the failure.
    pub reason: M2Reason,
    /// Deterministic detail.
    pub detail: String,
}

/// An unsupported-closure identity failure with the given detail.
pub open spec fn unsupported_error(e: ExecutableIdentityError, detail: Seq<char>) -> bool {
    &&& e.decision == ClosureDecision::ExecutionRefused
    &&& e.reason == M2Reason::UnsupportedClosure
    &&& e.detail@ == detail
}

impl ExecutableIdentityError {
    /// Build an unsupported-closure identity failure.
    pub fn unsupported(detail: String) -> (r: Self)
        ensures
            unsupported_error(r, detail@),
    {
        ExecutableIdentityError {
            decision: M2Reason::UnsupportedClosure.refusal_decision(),
            reason: M2Reason::UnsupportedClosure,
            detail,
        }
    }
}

/// Refuse a generated shim candidate: deterministic shim bytes are not
/// modeled.
pub fn refuse_generated_shim_candidate(relative_path: &str) -> (r: Result<
    ExecutableFileIdentity,
    ExecutableIdentityError,
>)
    ensures
        r matches Err(e) && unsupported_error(
            e,
            "generated shim identity is not modeled for M2: "@ + relative_path@,
        ),
{
    Err(ExecutableIdentityError::unsupported(concat2("generated shim identity is not modeled for M2: ", relative_path)))
}

/// A step of inspecting the selected bin on disk.
#[derive(Clone, Copy, Debug, PartialEq, Eq, Structural)]
pub enum IdentityStep {
    /// Canonicalizing the extraction root.
    ExtractionRoot,
    /// Canonicalizing the selected bin path.
    SelectedBin,
    /// Reading the selected bin's metadata.
    Metadata,
    /// Reading the selected bin's bytes.
    Read,
}

/// Detail of a failed inspection step and the error it reported.
pub open spec fn step_detail(step: IdentityStep, error: Seq<char>) -> Seq<char> {
    match step {
        IdentityStep::ExtractionRoot => "extraction root is unavailable: "@ + error,
        IdentityStep::SelectedBin => "selected bin is unavailable: "@ + error,
        IdentityStep::Metadata => "could not inspect selected bin: "@ + error,
        IdentityStep::Read => "could not read selected bin bytes: "@ + error,
    }
}

/// The identity failure of a failed inspection step.
pub fn identity_step_failure(step: IdentityStep, error: &str) -> (r: ExecutableIdentityError)
    ensures
        unsupported_error(r, step_detail(step, error@)),
{
    let head = match step {
        IdentityStep::ExtractionRoot => "extraction root is unavailable: ",
        IdentityStep::SelectedBin => "selected bin is unavailable: ",
        IdentityStep::Metadata => "could not inspect selected bin: ",
        IdentityStep::Read => "could not read selected bin bytes: ",
    };
    ExecutableIdentityError::unsupported(concat2(head, error))
}

/// Check where the canonical selected bin lies: inside the canonical
/// extraction root, and a regular file.
pub fn check_selected_bin_location(root: &str, candidate: &str, is_file: bool) -> (r: Result<
    (),
    ExecutableIdentityError,
>)
    ensures
        !path_starts_with(candidate@, root@) ==> (r matches Err(e) && unsupported_error(
            e,
            "selected bin path escapes verified extraction root"@,
        )),
        path_starts_with(candidate@, root@) && !is_file ==> (r matches Err(e) && unsupported_error(
            e,
            "selected bin path is not a regular file"@,
        )),
        r is Ok <==> path_starts_with(candidate@, root@) && is_file,
{
    if !crate::authority_context::path_starts_with_exec(candidate, root) {
        return Err(
            ExecutableIdentityError::unsupported(
                "selected bin path escapes verified extraction root".to_owned(),
            ),
        );
    }
    if !is_file {
        return Err(ExecutableIdentityError::unsupported("selected bin path is not a regular file".to_owned()));
    }
    Ok(())
}

/// Identity of the selected bin's bytes from the verified root artifact.
pub fn selected_bin_identity(selected_bin: &SelectedPackageBin, bytes: &[u8]) -> (r:
    ExecutableFileIdentity)
    ensures
        r.relative_path == selected_bin.relative_path,
        r.digest_algorithm@ == EXECUTABLE_DIGEST_ALGORITHM@,
        r.digest@ == hex(sha512_of(bytes@)),
        r.source == ExecutableFileSource::RootArtifact,
{
    let digest = sha512_digest(bytes);
    ExecutableFileIdentity {
        relative_path: selected_bin.relative_path.clone(),
        digest_algorithm: EXECUTABLE_DIGEST_ALGORITHM.to_owned(),
        digest: hex_digest(&digest),
        source: ExecutableFileSource::RootArtifact,
    }
}

} // verus!
