//! Direct-extract execution of marked local fixture packages: the checks
//! that must all pass before a fixture's verified bin may run, the process
//! invocation, and the recorded outcome. Nothing here runs npm, npx, a
//! shell or a lifecycle script.

use vstd::prelude::*;
use crate::bin_selection::{bin_entries, select_package_bin, SelectedPackageBin};
use crate::closure::{
    ClosureCommandIdentity, ClosureDecision, DependencyDeclaration, ExecutableFileIdentity, LifecycleScript,
    M2Reason,
};
use crate::closure_blockers::{
    assess_static_closure_blockers, blocker_reasons, declaration_of, is_blocking, script_entries, script_view,
};
use crate::contracts::{clone_string_vec, CommandIntent, PackageSpecParse};
use crate::evidence::ExtractedDependencyDeclaration;
use crate::executable_identity::ExecutableIdentityError;
use crate::extraction::ExtractedRootArtifact;
use crate::text::{concat2, str_eq};

verus! {

/// Marker file a fixture root must hold before the prototype may run it.
pub const LOCAL_FIXTURE_MARKER: &'static str = ".safe-npx-local-fixture";

/// Environment boundary of fixture execution.
#[derive(Clone, Debug, PartialEq, Eq)]
pub struct DirectExecutionEnvironment {
    /// Whether inherited environment variables are cleared.
    pub inherited_environment_cleared: bool,
    /// Explicit environment variables, sorted by name.
    pub variables: Vec<(String, String)>,
}

/// Outcome of the fixture execution prototype.
#[derive(Clone, Debug, PartialEq, Eq)]
pub struct DirectExecutionOutcome {
    /// Conservative closure decision.
    pub decision: ClosureDecision,
    /// Reasons supporting the decision.
    pub reasons: Vec<M2Reason>,
    /// Command identity requested by the caller.
    pub command: ClosureCommandIdentity,
    /// Selected executable identity, when byte identity was proven.
    pub selected_bin: Option<ExecutableFileIdentity>,
    /// Canonical working directory of the fixture process.
    pub cwd: Option<String>,
    /// Environment boundary of the fixture process.
    pub environment: DirectExecutionEnvironment,
    /// Exit code when the fixture process ran.
    pub exit_code: Option<i32>,
    /// Captured stdout when the fixture process ran.
    pub stdout: Vec<u8>,
    /// Captured stderr when the fixture process ran.
    pub stderr: Vec<u8>,
    /// Deterministic detail.
    pub detail: String,
}

/// Direct process invocation with no shell interpolation.
#[derive(Clone, Debug, PartialEq, Eq)]
pub struct ProcessInvocation {
    /// Executable path passed to the operating system.
    pub executable: String,
    /// Arguments passed as discrete argv values.
    pub args: Vec<String>,
    /// Working directory of the child process.
    pub cwd: String,
    /// The child's whole environment.
    pub environment: Vec<(String, String)>,
}

/// Captured process output.
#[derive(Clone, Debug, PartialEq, Eq)]
pub struct ProcessBoundaryOutput {
    /// Exit code when the platform reports one.
    pub exit_code: Option<i32>,
    /// Captured stdout bytes.
    pub stdout: Vec<u8>,
    /// Captured stderr bytes.
    pub stderr: Vec<u8>,
}

/// The fixture environment: inherited variables cleared, one marker variable.
pub open spec fn is_fixture_environment(e: DirectExecutionEnvironment) -> bool {
    &&& e.inherited_environment_cleared
    &&& e.variables@.len() == 1
    &&& e.variables@[0].0@ == "SAFE_NPX_FIXTURE"@
    &&& e.variables@[0].1@ == "1"@
}

fn fixture_environment() -> (r: DirectExecutionEnvironment)
    ensures
        is_fixture_environment(r),
{
    let variables = vec![("SAFE_NPX_FIXTURE".to_owned(), "1".to_owned())];
    DirectExecutionEnvironment { inherited_environment_cleared: true, variables }
}

/// An outcome in which nothing ran.
pub open spec fn nothing_ran(o: DirectExecutionOutcome, intent: CommandIntent) -> bool {
    &&& o.decision == ClosureDecision::ExecutionRefused
    &&& o.command.requested == intent.requested
    &&& o.command.forwarded_args@ == intent.forwarded_args@
    &&& o.cwd is None
    &&& is_fixture_environment(o.environment)
    &&& o.exit_code is None
    &&& o.stdout@.len() == 0
    &&& o.stderr@.len() == 0
}

/// A refusal for one reason, before anything ran.
pub open spec fn refused_for(
    o: DirectExecutionOutcome,
    intent: CommandIntent,
    reason: M2Reason,
    detail: Seq<char>,
) -> bool {
    &&& nothing_ran(o, intent)
    &&& o.reasons@ == seq![reason]
    &&& o.selected_bin is None
    &&& o.detail@ == detail
}

fn refused(intent: &CommandIntent, reason: M2Reason, selected_bin: Option<ExecutableFileIdentity>, detail: String) -> (r:
    DirectExecutionOutcome)
    ensures
        nothing_ran(r, *intent),
        r.reasons@ == seq![reason],
        r.selected_bin == selected_bin,
        r.detail == detail,
{
    let reasons = vec![reason];
    DirectExecutionOutcome {
        decision: ClosureDecision::ExecutionRefused,
        reasons,
        command: ClosureCommandIdentity::from_intent(intent),
        selected_bin,
        cwd: None,
        environment: fixture_environment(),
        exit_code: None,
        stdout: Vec::new(),
        stderr: Vec::new(),
        detail,
    }
}

/// The artifact is the package the intent names exactly.
pub open spec fn fixture_matches(a: ExtractedRootArtifact, intent: CommandIntent) -> bool {
    intent.package_spec matches PackageSpecParse::Supported(spec) && a.artifact.name@ == spec.name@
        && a.artifact.version@ == spec.version@
}

/// The fixture's dependency declarations that block execution.
pub open spec fn blocking_declarations(a: ExtractedRootArtifact) -> Seq<DependencyDeclaration> {
    a.metadata.dependency_declarations@.map_values(
        |d: ExtractedDependencyDeclaration| declaration_of(d),
    ).filter(|x: DependencyDeclaration| is_blocking(x))
}

/// The fixture's declared scripts or dependencies block execution.
pub open spec fn has_blockers(a: ExtractedRootArtifact) -> bool {
    script_entries(a.metadata).len() > 0 || blocking_declarations(a).len() > 0
}

/// Decide, before anything runs, whether a fixture may be executed: a
/// marked fixture whose artifact is the requested exact package, with no
/// lifecycle scripts, no dependency declarations and exactly one bin. The
/// selected bin, or the refusal.
pub fn plan_local_fixture_execution(
    artifact: &ExtractedRootArtifact,
    intent: &CommandIntent,
    marker_present: bool,
) -> (r: Result<SelectedPackageBin, DirectExecutionOutcome>)
    ensures
        r is Ok ==> marker_present && fixture_matches(*artifact, *intent) && !has_blockers(*artifact)
            && artifact.metadata.dependency_declarations@.len() == 0
            && bin_entries(artifact.metadata).len() == 1,
        r matches Err(o) ==> nothing_ran(o, *intent),
        !marker_present ==> (r matches Err(o) && refused_for(
            o,
            *intent,
            M2Reason::UnsupportedClosure,
            "direct execution prototype only accepts marked local fixtures"@,
        )),
        marker_present && !(intent.package_spec is Supported) ==> (r matches Err(o) && refused_for(
            o,
            *intent,
            M2Reason::UnsupportedClosure,
            "direct execution prototype requires exact-version package intent"@,
        )),
        marker_present && intent.package_spec is Supported && !fixture_matches(*artifact, *intent)
            ==> (r matches Err(o) && refused_for(
            o,
            *intent,
            M2Reason::UnsupportedClosure,
            "artifact identity does not match requested exact package coordinates"@,
        )),
        marker_present && fixture_matches(*artifact, *intent) ==> {
            if has_blockers(*artifact) {
                r matches Err(o) && nothing_ran(o, *intent) && o.selected_bin is None && o.reasons@
                    == blocker_reasons(
                    script_entries(artifact.metadata).len() > 0,
                    blocking_declarations(*artifact).len() > 0,
                ) && o.detail@ == "package metadata contains unproven execution closure blockers"@
            } else if artifact.metadata.dependency_declarations@.len() > 0 {
                r matches Err(o) && refused_for(
                    o,
                    *intent,
                    M2Reason::UnsupportedClosure,
                    "package metadata contains dependency declarations outside M2 execution scope"@,
                )
            } else if bin_entries(artifact.metadata).len() != 1 {
                r matches Err(o) && nothing_ran(o, *intent) && o.selected_bin is None && o.reasons@
                    == seq![
                    if bin_entries(artifact.metadata).len() == 0 {
                        M2Reason::MissingBin
                    } else {
                        M2Reason::AmbiguousBin
                    },
                ]
            } else {
                r matches Ok(s) && s.name@ == bin_entries(artifact.metadata)[0].0 && s.relative_path@
                    == bin_entries(artifact.metadata)[0].1
            }
        },
{
    if !marker_present {
        return Err(refused(
            intent,
            M2Reason::UnsupportedClosure,
            None,
            "direct execution prototype only accepts marked local fixtures".to_owned(),
        ));
    }
    let spec = match &intent.package_spec {
        PackageSpecParse::Supported(spec) => spec,
        _ => {
            return Err(refused(
                intent,
                M2Reason::UnsupportedClosure,
                None,
                "direct execution prototype requires exact-version package intent".to_owned(),
            ));
        },
    };
    if !str_eq(artifact.artifact.name.as_str(), spec.name.as_str()) || !str_eq(
        artifact.artifact.version.as_str(),
        spec.version.as_str(),
    ) {
        return Err(refused(
            intent,
            M2Reason::UnsupportedClosure,
            None,
            "artifact identity does not match requested exact package coordinates".to_owned(),
        ));
    }
    let assessment = assess_static_closure_blockers(&artifact.metadata);
    assert(assessment.lifecycle_scripts@.len() == script_entries(artifact.metadata).len()) by {
        assert(assessment.lifecycle_scripts@.map_values(|s: LifecycleScript| script_view(s)).len()
            == assessment.lifecycle_scripts@.len());
    }
    if assessment.blocking_dependency_declarations.len() > 0 || assessment.lifecycle_scripts.len() > 0 {
        return Err(DirectExecutionOutcome {
            decision: ClosureDecision::ExecutionRefused,
            reasons: assessment.reasons,
            command: ClosureCommandIdentity::from_intent(intent),
            selected_bin: None,
            cwd: None,
            environment: fixture_environment(),
            exit_code: None,
            stdout: Vec::new(),
            stderr: Vec::new(),
            detail: "package metadata contains unproven execution closure blockers".to_owned(),
        });
    }
    if artifact.metadata.dependency_declarations.len() > 0 {
        return Err(refused(
            intent,
            M2Reason::UnsupportedClosure,
            None,
            "package metadata contains dependency declarations outside M2 execution scope".to_owned(),
        ));
    }
    match select_package_bin(&artifact.metadata) {
        Ok(selected) => Ok(selected),
        Err(error) => Err(refused(intent, error.reason, None, error.detail)),
    }
}

/// The refusal of a fixture whose bin identity could not be proven.
pub fn identity_refusal(intent: &CommandIntent, error: ExecutableIdentityError) -> (r: DirectExecutionOutcome)
    ensures
        nothing_ran(r, *intent),
        r.reasons@ == seq![error.reason],
        r.selected_bin is None,
        r.detail == error.detail,
{
    refused(intent, error.reason, None, error.detail)
}

/// The invocation of a selected fixture bin: run directly from the
/// canonical fixture root, forwarded arguments as argv, fixture
/// environment only.
pub fn fixture_invocation(root: &str, selected_bin: &SelectedPackageBin, intent: &CommandIntent) -> (r:
    ProcessInvocation)
    ensures
        r.executable@ == root@ + "/"@ + selected_bin.relative_path@,
        r.args@ == intent.forwarded_args@,
        r.cwd@ == root@,
        r.environment@.len() == 1,
        r.environment@[0].0@ == "SAFE_NPX_FIXTURE"@,
        r.environment@[0].1@ == "1"@,
{
    let head = concat2(root, "/");
    ProcessInvocation {
        executable: concat2(head.as_str(), selected_bin.relative_path.as_str()),
        args: clone_string_vec(&intent.forwarded_args),
        cwd: root.to_owned(),
        environment: fixture_environment().variables,
    }
}

/// Record the outcome of running a fixture bin with proven identity: the
/// captured output when the process ran, otherwise a refusal carrying the
/// error.
pub fn fixture_outcome(
    intent: &CommandIntent,
    identity: ExecutableFileIdentity,
    root: &str,
    output: Result<ProcessBoundaryOutput, String>,
) -> (r: DirectExecutionOutcome)
    ensures
        r.command.requested == intent.requested,
        r.command.forwarded_args@ == intent.forwarded_args@,
        r.selected_bin == Some(identity),
        is_fixture_environment(r.environment),
        match output {
            Ok(o) => r.decision == ClosureDecision::Allow && r.reasons@.len() == 0 && (r.cwd matches Some(
                c) && c@ == root@) && r.exit_code == o.exit_code && r.stdout == o.stdout && r.stderr
                == o.stderr && r.detail@ == "local fixture executed from verified root artifact bin"@,
            Err(e) => nothing_ran(r, *intent) && r.reasons@ == seq![M2Reason::UnsupportedClosure]
                && r.detail@ == "could not execute local fixture bin directly: "@ + e@,
        },
{
    match output {
        Ok(o) => DirectExecutionOutcome {
            decision: ClosureDecision::Allow,
            reasons: Vec::new(),
            command: ClosureCommandIdentity::from_intent(intent),
            selected_bin: Some(identity),
            cwd: Some(root.to_owned()),
            environment: fixture_environment(),
            exit_code: o.exit_code,
            stdout: o.stdout,
            stderr: o.stderr,
            detail: "local fixture executed from verified root artifact bin".to_owned(),
        },
        Err(e) => refused(
            intent,
            M2Reason::UnsupportedClosure,
            Some(identity),
            concat2("could not execute local fixture bin directly: ", e.as_str()),
        ),
    }
}

} // verus!
