//! Execution-closure evidence: what must be proven before package code may
//! run, and the stable reason and decision vocabulary for refusals.

use vstd::prelude::*;
use crate::contracts::{ArtifactIdentity, CommandIntent, RegistrySource};
use crate::text::str_eq;

verus! {

/// Inspect-time execution closure evidence.
#[derive(Clone, Debug, PartialEq, Eq)]
pub struct ExecutionClosureEvidence {
    /// Command identity requested by the caller.
    pub command: ClosureCommandIdentity,
    /// Verified root artifact identity.
    pub root_artifact: ArtifactIdentity,
    /// Registry source used while building closure evidence.
    pub registry: RegistrySource,
    /// Optional cache evidence for the root artifact.
    pub cache: Option<CacheSource>,
    /// Selected package binary candidate, when deterministic.
    pub selected_bin: Option<ExecutableFileIdentity>,
    /// Generated shim candidate, when modeled.
    pub generated_shim: Option<ExecutableFileIdentity>,
    /// Lifecycle scripts detected in package metadata.
    pub lifecycle_scripts: Vec<LifecycleScript>,
    /// Dependency declarations from package metadata.
    pub dependency_declarations: Vec<DependencyDeclaration>,
    /// Verified dependency artifacts.
    pub verified_dependencies: Vec<VerifiedDependencyArtifact>,
    /// Current closure decision for execution.
    pub decision: ClosureDecision,
    /// Stable reasons supporting `decision`.
    pub reasons: Vec<M2Reason>,
}

/// Some verified artifact carries this name.
pub open spec fn is_verified_name(verified: Seq<VerifiedDependencyArtifact>, name: Seq<char>) -> bool {
    exists|j: int| 0 <= j < verified.len() && (#[trigger] verified[j]).name@ == name
}

/// Some declaration has no verified artifact of the same name.
pub open spec fn has_unverified_declaration(
    declarations: Seq<DependencyDeclaration>,
    verified: Seq<VerifiedDependencyArtifact>,
) -> bool {
    exists|i: int|
        0 <= i < declarations.len() && !is_verified_name(verified, (#[trigger] declarations[i]).name@)
}

impl ExecutionClosureEvidence {
    /// Closure evidence is complete enough to run package code.
    pub open spec fn executable_model(&self) -> bool {
        &&& self.decision == ClosureDecision::Allow
        &&& self.reasons@.len() == 0
        &&& self.selected_bin is Some
        &&& self.lifecycle_scripts@.len() == 0
        &&& !has_unverified_declaration(self.dependency_declarations@, self.verified_dependencies@)
    }

    /// Return true only when execution closure evidence is complete enough to run.
    pub fn is_executable(&self) -> (r: bool)
        ensures
            r == self.executable_model(),
    {
        self.decision == ClosureDecision::Allow && self.reasons.len() == 0
            && self.selected_bin.is_some() && self.lifecycle_scripts.len() == 0
            && !self.has_unverified_dependency_declarations()
    }

    /// Return true when some dependency declaration is not a verified artifact.
    pub fn has_unverified_dependency_declarations(&self) -> (r: bool)
        ensures
            r == has_unverified_declaration(
                self.dependency_declarations@,
                self.verified_dependencies@,
            ),
    {
        let decls = &self.dependency_declarations;
        let verified = &self.verified_dependencies;
        let mut i: usize = 0;
        while i < decls.len()
            invariant
                decls@ == self.dependency_declarations@,
                verified@ == self.verified_dependencies@,
                i <= decls@.len(),
                forall|k: int| 0 <= k < i ==> is_verified_name(verified@, (#[trigger] decls@[k]).name@),
            decreases decls@.len() - i,
        {
            let mut j: usize = 0;
            let mut found = false;
            while j < verified.len()
                invariant
                    verified@ == self.verified_dependencies@,
                    i < decls@.len(),
                    j <= verified@.len(),
                    found ==> is_verified_name(verified@, decls@[i as int].name@),
                    !found ==> forall|m: int|
                        0 <= m < j ==> (#[trigger] verified@[m]).name@ != decls@[i as int].name@,
                decreases verified@.len() - j,
            {
                if str_eq(verified[j].name.as_str(), decls[i].name.as_str()) {
                    found = true;
                }
                j = j + 1;
            }
            if !found {
                assert(!is_verified_name(verified@, decls@[i as int].name@));
                return true;
            }
            i = i + 1;
        }
        false
    }
}

/// Command identity used for closure proof.
#[derive(Clone, Debug, PartialEq, Eq)]
pub struct ClosureCommandIdentity {
    /// Requested package spec string.
    pub requested: String,
    /// Forwarded arguments preserved exactly.
    pub forwarded_args: Vec<String>,
}

impl ClosureCommandIdentity {
    /// Build command identity from parsed command intent.
    pub fn from_intent(intent: &CommandIntent) -> (r: Self)
        ensures
            r.requested == intent.requested,
            r.forwarded_args@ == intent.forwarded_args@,
    {
        ClosureCommandIdentity {
            requested: intent.requested.clone(),
            forwarded_args: intent.forwarded_args.clone(),
        }
    }
}

/// Local cache evidence used by closure proof.
#[derive(Clone, Debug, PartialEq, Eq)]
pub struct CacheSource {
    /// Stable cache namespace.
    pub namespace: String,
    /// Cache key tied to artifact identity.
    pub key: String,
    /// Digest recorded for the cache entry.
    pub digest: String,
}

/// Executable file identity inside a verified closure.
#[derive(Clone, Debug, PartialEq, Eq)]
pub struct ExecutableFileIdentity {
    /// Path relative to the verified extraction root.
    pub relative_path: String,
    /// Digest algorithm used by `digest`.
    pub digest_algorithm: String,
    /// Digest of the executable file or shim bytes.
    pub digest: String,
    /// Source of this executable identity.
    pub source: ExecutableFileSource,
}

/// Source of executable bytes represented in closure evidence.
#[derive(Clone, Copy, Debug, PartialEq, Eq, Structural)]
pub enum ExecutableFileSource {
    /// File came from the verified root package artifact.
    RootArtifact,
    /// File is a deterministic generated shim.
    GeneratedShim,
    /// File came from a verified dependency artifact.
    DependencyArtifact,
}

/// Lifecycle script metadata detected before execution.
#[derive(Clone, Debug, PartialEq, Eq)]
pub struct LifecycleScript {
    /// Script name such as `postinstall`.
    pub name: String,
    /// Script command as declared in package metadata.
    pub command: String,
}

/// Declared dependency metadata; not executable proof by itself.
#[derive(Clone, Debug, PartialEq, Eq)]
pub struct DependencyDeclaration {
    /// Dependency name.
    pub name: String,
    /// Declared version/range/source string.
    pub requirement: String,
    /// Dependency declaration kind.
    pub kind: DependencyDeclarationKind,
}

/// Dependency declaration kind from package metadata.
#[derive(Clone, Copy, Debug, PartialEq, Eq, Structural)]
pub enum DependencyDeclarationKind {
    /// `dependencies`.
    Runtime,
    /// `optionalDependencies`.
    Optional,
    /// `peerDependencies`.
    Peer,
    /// `peerDependenciesMeta`.
    PeerMetadata,
    /// `devDependencies`.
    Development,
    /// `bundleDependencies` or `bundledDependencies`.
    Bundled,
}

impl DependencyDeclarationKind {
    /// Kinds whose packages would be installed alongside the root package.
    pub open spec fn blocks_closure(self) -> bool {
        self == DependencyDeclarationKind::Runtime || self == DependencyDeclarationKind::Optional
            || self == DependencyDeclarationKind::Peer || self
            == DependencyDeclarationKind::Bundled
    }

    /// Return true when execution needs dependency closure proof for this kind.
    pub fn requires_m2_dependency_closure(&self) -> (r: bool)
        ensures
            r == self.blocks_closure(),
    {
        match self {
            DependencyDeclarationKind::Runtime | DependencyDeclarationKind::Optional
            | DependencyDeclarationKind::Peer | DependencyDeclarationKind::Bundled => true,
            DependencyDeclarationKind::PeerMetadata | DependencyDeclarationKind::Development => false,
        }
    }
}

/// Verified dependency artifact identity.
#[derive(Clone, Debug, PartialEq, Eq)]
pub struct VerifiedDependencyArtifact {
    /// Dependency package name.
    pub name: String,
    /// Dependency package version.
    pub version: String,
    /// Verified dependency artifact identity.
    pub artifact: ArtifactIdentity,
}

/// Closure decision vocabulary.
#[derive(Clone, Copy, Debug, PartialEq, Eq, Structural)]
pub enum ClosureDecision {
    /// Evidence and policy permit execution.
    Allow,
    /// A human decision is required.
    Ask,
    /// Known unsafe evidence was found.
    Deny,
    /// Command shape is outside the implemented closure surface.
    Unsupported,
    /// Inspection could not gather reliable closure evidence.
    InspectionError,
    /// Inspection succeeded, but execution closure could not be proven.
    ExecutionRefused,
}

/// Stable reason vocabulary for closure proof.
#[derive(Clone, Copy, Debug, PartialEq, Eq, Structural)]
pub enum M2Reason {
    /// Verified evidence is ready for an interactive approval prompt.
    InteractiveApprovalRequired,
    /// More than one binary could match the command.
    AmbiguousBin,
    /// No executable binary could be selected.
    MissingBin,
    /// A lifecycle script is present in package metadata.
    LifecycleScriptPresent,
    /// Full execution closure cannot be proven.
    UnsupportedClosure,
    /// Metadata changed between inspection and execution preparation.
    MetadataChanged,
    /// Cache entry identity does not match inspected evidence.
    CacheIdentityMismatch,
    /// Registry source for execution would differ from inspection.
    RegistryPrecedenceMismatch,
    /// Generated shim identity does not match deterministic evidence.
    ShimIdentityMismatch,
    /// Non-interactive context requires stopping instead of prompting.
    NonInteractiveStop,
}

impl M2Reason {
    /// The conservative decision a reason implies on its own.
    pub open spec fn decision_model(self) -> ClosureDecision {
        match self {
            M2Reason::InteractiveApprovalRequired => ClosureDecision::Ask,
            M2Reason::AmbiguousBin | M2Reason::MissingBin => ClosureDecision::Unsupported,
            _ => ClosureDecision::ExecutionRefused,
        }
    }

    /// Return the conservative decision associated with this closure reason.
    pub fn refusal_decision(&self) -> (r: ClosureDecision)
        ensures
            r == self.decision_model(),
    {
        match self {
            M2Reason::InteractiveApprovalRequired => ClosureDecision::Ask,
            M2Reason::LifecycleScriptPresent | M2Reason::UnsupportedClosure
            | M2Reason::MetadataChanged | M2Reason::CacheIdentityMismatch
            | M2Reason::RegistryPrecedenceMismatch | M2Reason::ShimIdentityMismatch => {
                ClosureDecision::ExecutionRefused
            },
            M2Reason::AmbiguousBin | M2Reason::MissingBin => ClosureDecision::Unsupported,
            M2Reason::NonInteractiveStop => ClosureDecision::ExecutionRefused,
        }
    }
}

} // verus!
