//! Shared inspect evidence model behind the human and JSON reports: facts
//! gathered before execution, report-only heuristics, the decision summary,
//! the authority context and the execution state.

use vstd::prelude::*;
use crate::authority_context::{
    authority_model, build_authority_context, package_scope_for_parse, scope_category,
    AmbientPaths, AuthorityContext, AuthorityView,
};
use crate::contracts::{
    clone_artifact, clone_intent, clone_resolved, ArtifactIdentity, CommandIntent, Decision,
    M1Reason, RegistrySourceView, ResolvedPackage, SourceContext,
};
use crate::evidence::{
    pair_views,
    clone_registry_evidence, clone_static, M1Evidence, RegistryEvidence,
    StaticExtractionEvidence,
};
use crate::json_sort::{entries_in_key_order, pairs_in_key_order};
use crate::numbers::{decimal, u64_to_decimal};
use crate::report_json::{m1_reason_name, m1_reason_text};
use crate::text::{concat2, string_views};

verus! {

/// Shared inspect model consumed by the human and JSON renderers.
#[derive(Clone, Debug, PartialEq, Eq)]
pub struct InspectModel {
    /// Facts gathered before execution.
    pub facts: InspectFacts,
    /// Report-only signals that never become hard denials.
    pub heuristics: Vec<InspectHeuristic>,
    /// Decision summary and required next action.
    pub decision: InspectDecision,
    /// Authority context of the command.
    pub authority_context: InspectAuthorityContext,
    /// Execution state of the report.
    pub execution_state: InspectExecutionState,
}

/// Facts gathered before package code can run.
#[derive(Clone, Debug, PartialEq, Eq)]
pub struct InspectFacts {
    /// Parsed command intent.
    pub command: CommandIntent,
    /// Resolved package coordinates when resolution succeeded.
    pub resolved_package: Option<ResolvedPackage>,
    /// Registry evidence when resolution succeeded.
    pub registry: Option<RegistryEvidence>,
    /// Verified root artifact identity when integrity succeeded.
    pub artifact: Option<ArtifactIdentity>,
    /// Root package extraction facts when extraction succeeded.
    pub root_package: Option<StaticExtractionEvidence>,
    /// Refusal or failure fact of a refused or failed inspection.
    pub refusal: Option<InspectRefusalFact>,
}

/// Refusal or failure captured before execution.
#[derive(Clone, Debug, PartialEq, Eq)]
pub struct InspectRefusalFact {
    /// Refusal state.
    pub state: InspectRefusalState,
    /// Stable reason.
    pub reason: M1Reason,
    /// Whether registry or tarball bytes were downloaded.
    pub downloaded: bool,
    /// Failure detail, for failures.
    pub detail: Option<String>,
}

/// Refusal fact state.
#[derive(Clone, Copy, Debug, PartialEq, Eq, Structural)]
pub enum InspectRefusalState {
    /// Input was refused before registry or tarball access.
    NoDownload,
    /// Registry, download, integrity or extraction failed before execution.
    Failed,
}

/// Report-only inspect heuristic.
#[derive(Clone, Debug, PartialEq, Eq)]
pub struct InspectHeuristic {
    /// Heuristic kind.
    pub kind: InspectHeuristicKind,
    /// Evidence source of the heuristic.
    pub source: &'static str,
    /// Human-readable summary.
    pub message: String,
    /// Whether the heuristic is report-only.
    pub report_only: bool,
}

/// Heuristic vocabulary of inspect reports.
#[derive(Clone, Copy, Debug, PartialEq, Eq, Structural)]
pub enum InspectHeuristicKind {
    /// Lifecycle scripts are present in root package metadata.
    LifecycleScriptsPresent,
    /// Dependency declarations are present but are no verified closure.
    DependencyDeclarationsPresent,
    /// The package shape is unusual.
    UnusualPackageShape,
}

/// Inspect decision summary.
#[derive(Clone, Debug, PartialEq, Eq)]
pub struct InspectDecision {
    /// Current recommendation.
    pub recommendation: Decision,
    /// Stable textual reasons for the recommendation.
    pub reasons: Vec<String>,
    /// Required next action for a human or agent.
    pub required_next_action: InspectNextAction,
}

/// Next action vocabulary of inspect reports.
#[derive(Clone, Copy, Debug, PartialEq, Eq, Structural)]
pub enum InspectNextAction {
    /// Ask a human before execution.
    AskUser,
    /// Stop; no execution path is available.
    Stop,
    /// Retry with a narrower exact package command.
    RetryNarrowerCommand,
}

/// Authority context of an inspect report.
#[derive(Clone, Debug, PartialEq, Eq)]
pub struct InspectAuthorityContext {
    /// Redacted authority context.
    pub redacted: AuthorityContext,
}

/// Execution state of an inspect report.
#[derive(Clone, Copy, Debug, PartialEq, Eq, Structural)]
pub struct InspectExecutionState {
    /// Execution state.
    pub state: InspectExecutionStateKind,
    /// Whether package code ran.
    pub package_code_executed: bool,
}

/// Execution state vocabulary.
#[derive(Clone, Copy, Debug, PartialEq, Eq, Structural)]
pub enum InspectExecutionStateKind {
    /// Inspection completed and stopped before execution.
    StoppedBeforeExecution,
    /// Input was refused before execution.
    RefusedBeforeExecution,
    /// Inspection failed before execution.
    FailedBeforeExecution,
}

/// Model of an [`InspectHeuristic`].
pub struct HeuristicView {
    pub kind: InspectHeuristicKind,
    pub source: Seq<char>,
    pub message: Seq<char>,
    pub report_only: bool,
}

impl View for InspectHeuristic {
    type V = HeuristicView;

    open spec fn view(&self) -> HeuristicView {
        HeuristicView {
            kind: self.kind,
            source: self.source@,
            message: self.message@,
            report_only: self.report_only,
        }
    }
}

/// Views of heuristics.
pub open spec fn heuristic_views(v: Seq<InspectHeuristic>) -> Seq<HeuristicView> {
    v.map_values(|h: InspectHeuristic| h@)
}

// ---------------------------------------------------------------------------
// The model
// ---------------------------------------------------------------------------

/// Evidence source of every heuristic.
pub const HEURISTIC_SOURCE: &'static str = "root_package.package_json";

/// A report-only heuristic.
pub open spec fn report_only(kind: InspectHeuristicKind, message: Seq<char>) -> HeuristicView {
    HeuristicView { kind, source: HEURISTIC_SOURCE@, message, report_only: true }
}

/// Report-only heuristics of extracted root package facts: lifecycle
/// scripts, dependency declarations, and a missing binary declaration.
pub open spec fn heuristics_model(root: Option<StaticExtractionEvidence>) -> Seq<HeuristicView> {
    match root {
        None => Seq::empty(),
        Some(se) => {
            let m = se.metadata@;
            (if entries_in_key_order(m.lifecycle_scripts).len() > 0 {
                seq![report_only(
                    InspectHeuristicKind::LifecycleScriptsPresent,
                    decimal(entries_in_key_order(m.lifecycle_scripts).len())
                        + " lifecycle script(s) declared"@,
                )]
            } else {
                Seq::empty()
            }) + (if m.dependency_declarations.len() > 0 {
                seq![report_only(
                    InspectHeuristicKind::DependencyDeclarationsPresent,
                    decimal(m.dependency_declarations.len())
                        + " dependency declaration(s) are not verified closure"@,
                )]
            } else {
                Seq::empty()
            }) + (if m.bins.len() == 0 {
                seq![report_only(
                    InspectHeuristicKind::UnusualPackageShape,
                    "no package binary declaration found"@,
                )]
            } else {
                Seq::empty()
            })
        },
    }
}

/// Decision reason when nothing was refused.
pub open spec fn heuristics_reason() -> Seq<char> {
    "m3_heuristics_report_only"@
}

/// Required next action for a recommendation: stop on a denial, otherwise
/// ask the user.
pub open spec fn next_action_for(d: Decision) -> InspectNextAction {
    match d {
        Decision::Deny => InspectNextAction::Stop,
        Decision::Allow | Decision::Ask => InspectNextAction::AskUser,
    }
}

/// The facts of an inspect model for an intent and its evidence.
pub open spec fn facts_hold(f: InspectFacts, intent: CommandIntent, m1: M1Evidence) -> bool {
    &&& f.command.requested == intent.requested
    &&& f.command.package_spec == intent.package_spec
    &&& f.command.forwarded_args@ == intent.forwarded_args@
    &&& match m1 {
        M1Evidence::NoDownload { reason, downloaded } => {
            &&& f.resolved_package is None
            &&& f.registry is None
            &&& f.artifact is None
            &&& f.root_package is None
            &&& f.refusal == Some(
                InspectRefusalFact {
                    state: InspectRefusalState::NoDownload,
                    reason,
                    downloaded,
                    detail: None,
                },
            )
        },
        M1Evidence::Failed { reason, downloaded, detail } => {
            &&& f.resolved_package is None
            &&& f.registry is None
            &&& f.artifact is None
            &&& f.root_package is None
            &&& f.refusal == Some(
                InspectRefusalFact {
                    state: InspectRefusalState::Failed,
                    reason,
                    downloaded,
                    detail: Some(detail),
                },
            )
        },
        M1Evidence::Verified {
            resolved_package,
            artifact_identity,
            registry_evidence,
            static_extraction,
            ..
        } => {
            &&& f.resolved_package == Some(resolved_package)
            &&& f.artifact == Some(artifact_identity)
            &&& (f.registry matches Some(re) && re@ == registry_evidence@)
            &&& match (f.root_package, static_extraction) {
                (Some(a), Some(b)) => a.metadata@ == b.metadata@ && a.artifact_size_bytes
                    == b.artifact_size_bytes && a.file_count == b.file_count && a.status
                    == b.status,
                (None, None) => true,
                _ => false,
            }
            &&& f.refusal is None
        },
    }
}

/// Registry source of the evidence, when resolution succeeded.
pub open spec fn evidence_registry(m1: M1Evidence) -> Option<RegistrySourceView> {
    match m1 {
        M1Evidence::Verified { registry_evidence, .. } => Some(registry_evidence.registry@),
        _ => None,
    }
}

/// Execution state of the evidence: stopped after verification, refused
/// before download, or failed.
pub open spec fn execution_state_for(m1: M1Evidence) -> InspectExecutionStateKind {
    match m1 {
        M1Evidence::NoDownload { .. } => InspectExecutionStateKind::RefusedBeforeExecution,
        M1Evidence::Failed { .. } => InspectExecutionStateKind::FailedBeforeExecution,
        M1Evidence::Verified { .. } => InspectExecutionStateKind::StoppedBeforeExecution,
    }
}

/// Authority context of an inspect model.
pub open spec fn inspect_authority(
    intent: CommandIntent,
    m1: M1Evidence,
    source_context: SourceContext,
    ambient: AmbientPaths,
) -> AuthorityView {
    authority_model(
        intent.requested@,
        source_context,
        evidence_registry(m1),
        scope_category(intent.package_spec@),
        ambient.cwd.deep_view(),
        ambient.home.deep_view(),
        ambient.temp_dir@,
    )
}

/// Everything an inspect model states for an intent, its recommendation and
/// evidence, the declared source context and the process directories.
pub open spec fn inspect_holds(
    r: InspectModel,
    intent: CommandIntent,
    recommendation: Decision,
    m1: M1Evidence,
    source_context: SourceContext,
    ambient: AmbientPaths,
) -> bool {
    &&& facts_hold(r.facts, intent, m1)
    &&& heuristic_views(r.heuristics@) == heuristics_model(r.facts.root_package)
    &&& r.decision.recommendation == recommendation
    &&& string_views(r.decision.reasons@) == match r.facts.refusal {
        Some(f) => seq![m1_reason_text(f.reason)],
        None => seq![heuristics_reason()],
    }
    &&& r.decision.required_next_action == next_action_for(recommendation)
    &&& r.authority_context.redacted@ == inspect_authority(intent, m1, source_context, ambient)
    &&& r.execution_state == InspectExecutionState {
        state: execution_state_for(m1),
        package_code_executed: false,
    }
}

fn facts_from(intent: &CommandIntent, m1: &M1Evidence) -> (r: (InspectFacts, InspectExecutionStateKind))
    ensures
        facts_hold(r.0, *intent, *m1),
        r.1 == execution_state_for(*m1),
{
    let command = clone_intent(intent);
    match m1 {
        M1Evidence::NoDownload { reason, downloaded } => (
            InspectFacts {
                command,
                resolved_package: None,
                registry: None,
                artifact: None,
                root_package: None,
                refusal: Some(
                    InspectRefusalFact {
                        state: InspectRefusalState::NoDownload,
                        reason: *reason,
                        downloaded: *downloaded,
                        detail: None,
                    },
                ),
            },
            InspectExecutionStateKind::RefusedBeforeExecution,
        ),
        M1Evidence::Failed { reason, downloaded, detail } => (
            InspectFacts {
                command,
                resolved_package: None,
                registry: None,
                artifact: None,
                root_package: None,
                refusal: Some(
                    InspectRefusalFact {
                        state: InspectRefusalState::Failed,
                        reason: *reason,
                        downloaded: *downloaded,
                        detail: Some(detail.clone()),
                    },
                ),
            },
            InspectExecutionStateKind::FailedBeforeExecution,
        ),
        M1Evidence::Verified {
            resolved_package,
            artifact_identity,
            registry_evidence,
            static_extraction,
            ..
        } => {
            let registry = clone_registry_evidence(registry_evidence);
            assert(registry@ == registry_evidence@);
            let root_package = match static_extraction {
                Some(se) => Some(clone_static(se)),
                None => None,
            };
            (
                InspectFacts {
                    command,
                    resolved_package: Some(clone_resolved(resolved_package)),
                    registry: Some(registry),
                    artifact: Some(clone_artifact(artifact_identity)),
                    root_package,
                    refusal: None,
                },
                InspectExecutionStateKind::StoppedBeforeExecution,
            )
        },
    }
}

/// Report-only heuristics of the facts.
fn inspect_heuristics(facts: &InspectFacts) -> (r: Vec<InspectHeuristic>)
    ensures
        heuristic_views(r@) == heuristics_model(facts.root_package),
{
    let mut heuristics: Vec<InspectHeuristic> = Vec::new();
    if let Some(root_package) = &facts.root_package {
        let metadata = &root_package.metadata;
        let ghost m = metadata@;
        let ghost first: Seq<HeuristicView> = if entries_in_key_order(m.lifecycle_scripts).len() > 0 {
            seq![report_only(
                InspectHeuristicKind::LifecycleScriptsPresent,
                decimal(entries_in_key_order(m.lifecycle_scripts).len()) + " lifecycle script(s) declared"@,
            )]
        } else {
            Seq::empty()
        };
        let ghost second: Seq<HeuristicView> = if m.dependency_declarations.len() > 0 {
            seq![report_only(
                InspectHeuristicKind::DependencyDeclarationsPresent,
                decimal(m.dependency_declarations.len())
                    + " dependency declaration(s) are not verified closure"@,
            )]
        } else {
            Seq::empty()
        };
        let ghost third: Seq<HeuristicView> = if m.bins.len() == 0 {
            seq![report_only(InspectHeuristicKind::UnusualPackageShape, "no package binary declaration found"@)]
        } else {
            Seq::empty()
        };
        let scripts = pairs_in_key_order(&metadata.lifecycle_scripts);
        assert(pair_views(scripts@).len() == scripts@.len());
        if scripts.len() > 0 {
            let count = u64_to_decimal(scripts.len() as u64);
            let h = InspectHeuristic {
                kind: InspectHeuristicKind::LifecycleScriptsPresent,
                source: HEURISTIC_SOURCE,
                message: concat2(count.as_str(), " lifecycle script(s) declared"),
                report_only: true,
            };
            heuristics.push(h);
        }
        assert(heuristic_views(heuristics@) == first);
        let ghost after_first = heuristics@;
        if metadata.dependency_declarations.len() > 0 {
            let count = u64_to_decimal(metadata.dependency_declarations.len() as u64);
            let h = InspectHeuristic {
                kind: InspectHeuristicKind::DependencyDeclarationsPresent,
                source: HEURISTIC_SOURCE,
                message: concat2(count.as_str(), " dependency declaration(s) are not verified closure"),
                report_only: true,
            };
            heuristics.push(h);
            assert(heuristic_views(heuristics@) == heuristic_views(after_first).push(h@));
        }
        assert(heuristic_views(heuristics@) == first + second);
        let ghost after_second = heuristics@;
        if metadata.bins.len() == 0 {
            let h = InspectHeuristic {
                kind: InspectHeuristicKind::UnusualPackageShape,
                source: HEURISTIC_SOURCE,
                message: "no package binary declaration found".to_owned(),
                report_only: true,
            };
            heuristics.push(h);
            assert(heuristic_views(heuristics@) == heuristic_views(after_second).push(h@));
        }
        assert(heuristic_views(heuristics@) == first + second + third);
    } else {
        assert(heuristic_views(heuristics@) == Seq::<HeuristicView>::empty());
    }
    heuristics
}

/// Decision summary; heuristics never change the recommendation.
fn inspect_decision(recommendation: Decision, facts: &InspectFacts) -> (r: InspectDecision)
    ensures
        r.recommendation == recommendation,
        string_views(r.reasons@) == match facts.refusal {
            Some(f) => seq![m1_reason_text(f.reason)],
            None => seq![heuristics_reason()],
        },
        r.required_next_action == next_action_for(recommendation),
{
    let required_next_action = match recommendation {
        Decision::Deny => InspectNextAction::Stop,
        Decision::Allow | Decision::Ask => InspectNextAction::AskUser,
    };
    let reason = match &facts.refusal {
        Some(refusal) => m1_reason_name(&refusal.reason).to_owned(),
        None => "m3_heuristics_report_only".to_owned(),
    };
    let reasons = vec![reason];
    assert(string_views(reasons@) == seq![reason@]);
    InspectDecision { recommendation, reasons, required_next_action }
}

/// Build the shared inspect model from the report's intent, recommendation
/// and evidence, the declared source context and the process directories.
pub fn build_inspect_model(
    intent: &CommandIntent,
    recommendation: Decision,
    m1: &M1Evidence,
    source_context: SourceContext,
    ambient: &AmbientPaths,
) -> (r: InspectModel)
    ensures
        inspect_holds(r, *intent, recommendation, *m1, source_context, *ambient),
{
    let (facts, state) = facts_from(intent, m1);
    let heuristics = inspect_heuristics(&facts);
    let decision = inspect_decision(recommendation, &facts);
    let registry_source = match &facts.registry {
        Some(re) => Some(&re.registry),
        None => None,
    };
    let redacted = build_authority_context(
        intent.requested.as_str(),
        &source_context,
        registry_source,
        package_scope_for_parse(&intent.package_spec),
        ambient,
    );
    InspectModel {
        facts,
        heuristics,
        decision,
        authority_context: InspectAuthorityContext { redacted },
        execution_state: InspectExecutionState { state, package_code_executed: false },
    }
}

/// An inspect report never runs package code, its heuristics are all
/// report-only, and they leave the recommendation as it was.
pub proof fn law_inspect_is_report_only(
    r: InspectModel,
    intent: CommandIntent,
    recommendation: Decision,
    m1: M1Evidence,
    source_context: SourceContext,
    ambient: AmbientPaths,
)
    requires
        inspect_holds(r, intent, recommendation, m1, source_context, ambient),
    ensures
        !r.execution_state.package_code_executed,
        forall|i: int| 0 <= i < r.heuristics@.len() ==> #[trigger] r.heuristics@[i].report_only,
        r.decision.recommendation == recommendation,
        r.decision.required_next_action == InspectNextAction::Stop <==> recommendation == Decision::Deny,
{
    let hs = heuristic_views(r.heuristics@);
    assert forall|i: int| 0 <= i < r.heuristics@.len() implies #[trigger] r.heuristics@[i].report_only by {
        assert(hs[i] == r.heuristics@[i]@);
        assert(forall|j: int| 0 <= j < heuristics_model(r.facts.root_package).len()
            ==> heuristics_model(r.facts.root_package)[j].report_only);
    }
}

} // verus!
