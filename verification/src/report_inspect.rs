//! Human rendering of the shared inspect model: command intent, facts,
//! decision summary, authority context, execution state and report-only
//! heuristics.

use vstd::prelude::*;
use crate::authority_context::{
    AuthorityActorContext, AuthorityRunnerContext, AuthorityView, RegistryContextView,
};
use crate::contracts::{Decision, SourceContext};
use crate::inspect_model::{
    heuristic_views, HeuristicView, InspectExecutionStateKind, InspectHeuristicKind, InspectModel,
    InspectNextAction, InspectRefusalState,
};
use crate::text::{join, join_strings, string_views};
use crate::extraction::{render_static_extraction, static_extraction_text};
use crate::redaction::{redact_report_value, redacted};
use crate::report::{bool_name, bool_text, command_intent_text, render_command_intent};
use crate::report_json::{m1_reason_name, m1_reason_text};
use crate::report_optional_evidence::{registry_optional_text, render_registry_optional_evidence};

verus! {

/// Debug name of a decision.
pub open spec fn decision_debug_text(d: Decision) -> Seq<char> {
    match d {
        Decision::Allow => "Allow"@,
        Decision::Ask => "Ask"@,
        Decision::Deny => "Deny"@,
    }
}

pub fn decision_debug_str(d: Decision) -> (r: &'static str)
    ensures
        r@ == decision_debug_text(d),
{
    match d {
        Decision::Allow => "Allow",
        Decision::Ask => "Ask",
        Decision::Deny => "Deny",
    }
}

/// Stable name of a refusal state.
pub open spec fn refusal_state_text(s: InspectRefusalState) -> Seq<char> {
    match s {
        InspectRefusalState::NoDownload => "no_download"@,
        InspectRefusalState::Failed => "failed"@,
    }
}

/// Stable name of a refusal state.
pub fn refusal_state_name(s: InspectRefusalState) -> (r: &'static str)
    ensures
        r@ == refusal_state_text(s),
{
    match s {
        InspectRefusalState::NoDownload => "no_download",
        InspectRefusalState::Failed => "failed",
    }
}

/// Stable name of a next action.
pub open spec fn next_action_text(a: InspectNextAction) -> Seq<char> {
    match a {
        InspectNextAction::AskUser => "ask_user"@,
        InspectNextAction::Stop => "stop"@,
        InspectNextAction::RetryNarrowerCommand => "retry_narrower_command"@,
    }
}

/// Stable name of a next action.
pub fn next_action_name(a: InspectNextAction) -> (r: &'static str)
    ensures
        r@ == next_action_text(a),
{
    match a {
        InspectNextAction::AskUser => "ask_user",
        InspectNextAction::Stop => "stop",
        InspectNextAction::RetryNarrowerCommand => "retry_narrower_command",
    }
}

/// Stable name of an execution state.
pub open spec fn execution_state_text(s: InspectExecutionStateKind) -> Seq<char> {
    match s {
        InspectExecutionStateKind::StoppedBeforeExecution => "stopped_before_execution"@,
        InspectExecutionStateKind::RefusedBeforeExecution => "refused_before_execution"@,
        InspectExecutionStateKind::FailedBeforeExecution => "failed_before_execution"@,
    }
}

/// Stable name of an execution state.
pub fn execution_state_name(s: InspectExecutionStateKind) -> (r: &'static str)
    ensures
        r@ == execution_state_text(s),
{
    match s {
        InspectExecutionStateKind::StoppedBeforeExecution => "stopped_before_execution",
        InspectExecutionStateKind::RefusedBeforeExecution => "refused_before_execution",
        InspectExecutionStateKind::FailedBeforeExecution => "failed_before_execution",
    }
}

/// Stable name of a heuristic kind.
pub open spec fn heuristic_kind_text(k: InspectHeuristicKind) -> Seq<char> {
    match k {
        InspectHeuristicKind::LifecycleScriptsPresent => "lifecycle_scripts_present"@,
        InspectHeuristicKind::DependencyDeclarationsPresent => "dependency_declarations_present"@,
        InspectHeuristicKind::UnusualPackageShape => "unusual_package_shape"@,
    }
}

/// Stable name of a heuristic kind.
pub fn heuristic_kind_name(k: InspectHeuristicKind) -> (r: &'static str)
    ensures
        r@ == heuristic_kind_text(k),
{
    match k {
        InspectHeuristicKind::LifecycleScriptsPresent => "lifecycle_scripts_present",
        InspectHeuristicKind::DependencyDeclarationsPresent => "dependency_declarations_present",
        InspectHeuristicKind::UnusualPackageShape => "unusual_package_shape",
    }
}

/// Stable name of a declared source context.
pub open spec fn source_context_text(s: SourceContext) -> Seq<char> {
    match s {
        SourceContext::ManualTerminal => "manual_terminal"@,
        SourceContext::DocsSnippet => "docs_snippet"@,
        SourceContext::AgentSkill => "agent_skill"@,
        SourceContext::Ci => "ci"@,
        SourceContext::Unknown => "unknown"@,
    }
}

/// Stable name of a declared source context.
pub fn source_context_name(s: SourceContext) -> (r: &'static str)
    ensures
        r@ == source_context_text(s),
{
    match s {
        SourceContext::ManualTerminal => "manual_terminal",
        SourceContext::DocsSnippet => "docs_snippet",
        SourceContext::AgentSkill => "agent_skill",
        SourceContext::Ci => "ci",
        SourceContext::Unknown => "unknown",
    }
}

/// Stable name of a runner context.
pub open spec fn runner_text(r: AuthorityRunnerContext) -> Seq<char> {
    match r {
        AuthorityRunnerContext::LocalTerminal => "local_terminal"@,
        AuthorityRunnerContext::Ci => "ci"@,
        AuthorityRunnerContext::Agent => "agent"@,
        AuthorityRunnerContext::Unknown => "unknown"@,
    }
}

/// Stable name of a runner context.
pub fn runner_name(r: AuthorityRunnerContext) -> (s: &'static str)
    ensures
        s@ == runner_text(r),
{
    match r {
        AuthorityRunnerContext::LocalTerminal => "local_terminal",
        AuthorityRunnerContext::Ci => "ci",
        AuthorityRunnerContext::Agent => "agent",
        AuthorityRunnerContext::Unknown => "unknown",
    }
}

/// Stable name of an actor context.
pub open spec fn actor_text(a: AuthorityActorContext) -> Seq<char> {
    match a {
        AuthorityActorContext::ManualUser => "manual_user"@,
        AuthorityActorContext::CodingAgent => "coding_agent"@,
        AuthorityActorContext::Automation => "automation"@,
        AuthorityActorContext::Unknown => "unknown"@,
    }
}

/// Stable name of an actor context.
pub fn actor_name(a: AuthorityActorContext) -> (s: &'static str)
    ensures
        s@ == actor_text(a),
{
    match a {
        AuthorityActorContext::ManualUser => "manual_user",
        AuthorityActorContext::CodingAgent => "coding_agent",
        AuthorityActorContext::Automation => "automation",
        AuthorityActorContext::Unknown => "unknown",
    }
}

/// Decision reasons joined by `, `, or `none`.
pub open spec fn reasons_text(reasons: Seq<Seq<char>>) -> Seq<char> {
    if reasons.len() == 0 {
        "none"@
    } else {
        join(reasons, ", "@)
    }
}

/// Registry line of the authority section.
pub open spec fn registry_text(r: Option<RegistryContextView>) -> Seq<char> {
    match r {
        Some(c) => match c.scope {
            Some(s) => c.display_url + " ("@ + s + ")"@,
            None => c.display_url,
        },
        None => "unknown"@,
    }
}

/// One heuristic line.
pub open spec fn heuristic_line(h: HeuristicView) -> Seq<char> {
    "- "@ + heuristic_kind_text(h.kind) + " ["@ + (if h.report_only {
        "report_only"@
    } else {
        "policy"@
    }) + "] "@ + h.source + ": "@ + h.message + "\n"@
}

/// Heuristic lines, one per heuristic.
pub open spec fn heuristic_lines(hs: Seq<HeuristicView>) -> Seq<char>
    decreases hs.len(),
{
    if hs.len() == 0 {
        Seq::empty()
    } else {
        heuristic_lines(hs.drop_last()) + heuristic_line(hs.last())
    }
}

/// The heuristics section body: `none` or one line per heuristic.
pub open spec fn heuristics_text(hs: Seq<HeuristicView>) -> Seq<char> {
    if hs.len() == 0 {
        "none\n"@
    } else {
        heuristic_lines(hs)
    }
}

/// The authority section lines.
pub open spec fn authority_text(a: AuthorityView) -> Seq<char> {
    "Authority: command="@ + a.command_intent.display + "\nsource_context="@
        + source_context_text(a.source_context) + "\nrunner="@ + runner_text(a.runner_context)
        + "\nactor="@ + actor_text(a.actor_context) + "\ncwd="@ + a.cwd.display + " ["@
        + a.cwd.category + "]\nregistry="@ + registry_text(a.registry) + "\npackage_scope="@
        + match a.package_scope {
        Some(s) => s,
        None => "unknown"@,
    } + "\nAuthority boundary: "@ + a.sandbox_boundary
}

/// Human summary of the shared inspect model: decision, authority,
/// execution and heuristics.
pub open spec fn summary_text(m: InspectModel) -> Seq<char> {
    "Recommendation: "@ + decision_debug_text(m.decision.recommendation) + "\nDecision reasons: "@
        + reasons_text(string_views(m.decision.reasons@)) + "\nRequired next action: "@
        + next_action_text(m.decision.required_next_action) + "\n\n[Authority]\n"@
        + authority_text(m.authority_context.redacted@) + "\n\n[Execution]\nExecution: "@
        + execution_state_text(m.execution_state.state) + "; package code executed: "@ + (
    if m.execution_state.package_code_executed {
        "true"@
    } else {
        "false"@
    }) + "\n\n[Heuristics]\n"@ + heuristics_text(heuristic_views(m.heuristics@))
}

fn render_heuristics(model: &InspectModel) -> (r: String)
    ensures
        r@ == heuristics_text(heuristic_views(model.heuristics@)),
{
    if model.heuristics.len() == 0 {
        return "none\n".to_owned();
    }
    let ghost hs = heuristic_views(model.heuristics@);
    let mut out = String::new();
    let mut i: usize = 0;
    while i < model.heuristics.len()
        invariant
            i <= model.heuristics@.len(),
            hs == heuristic_views(model.heuristics@),
            out@ == heuristic_lines(hs.subrange(0, i as int)),
        decreases model.heuristics@.len() - i,
    {
        let h = &model.heuristics[i];
        out.append("- ");
        out.append(heuristic_kind_name(h.kind));
        out.append(" [");
        out.append(
            if h.report_only {
                "report_only"
            } else {
                "policy"
            },
        );
        out.append("] ");
        out.append(h.source);
        out.append(": ");
        out.append(h.message.as_str());
        out.append("\n");
        assert(hs.subrange(0, i + 1).drop_last() == hs.subrange(0, i as int));
        assert(hs.subrange(0, i + 1).last() == h@);
        i = i + 1;
    }
    assert(hs.subrange(0, hs.len() as int) == hs);
    out
}

fn render_authority(model: &InspectModel) -> (r: String)
    ensures
        r@ == authority_text(model.authority_context.redacted@),
{
    let a = &model.authority_context.redacted;
    let mut out = "Authority: command=".to_owned();
    out.append(a.command_intent.display.as_str());
    out.append("\nsource_context=");
    out.append(source_context_name(a.source_context));
    out.append("\nrunner=");
    out.append(runner_name(a.runner_context));
    out.append("\nactor=");
    out.append(actor_name(a.actor_context));
    out.append("\ncwd=");
    out.append(a.cwd.display.as_str());
    out.append(" [");
    out.append(a.cwd.category.as_str());
    out.append("]\nregistry=");
    match &a.registry {
        Some(c) => {
            out.append(c.display_url.as_str());
            match &c.scope {
                Some(s) => {
                    out.append(" (");
                    out.append(s.as_str());
                    out.append(")");
                },
                None => {},
            }
        },
        None => out.append("unknown"),
    }
    out.append("\npackage_scope=");
    match &a.package_scope {
        Some(s) => out.append(s.as_str()),
        None => out.append("unknown"),
    }
    out.append("\nAuthority boundary: ");
    out.append(a.sandbox_boundary);
    out
}

/// Render the shared decision, authority, execution and heuristic fields.
pub fn render_model_summary(model: &InspectModel) -> (r: String)
    ensures
        r@ == summary_text(*model),
{
    let mut out = "Recommendation: ".to_owned();
    out.append(decision_debug_str(model.decision.recommendation));
    out.append("\nDecision reasons: ");
    if model.decision.reasons.len() == 0 {
        out.append("none");
    } else {
        out.append(join_strings(&model.decision.reasons, ", ").as_str());
    }
    out.append("\nRequired next action: ");
    out.append(next_action_name(model.decision.required_next_action));
    out.append("\n\n[Authority]\n");
    out.append(render_authority(model).as_str());
    out.append("\n\n[Execution]\nExecution: ");
    out.append(execution_state_name(model.execution_state.state));
    out.append("; package code executed: ");
    out.append(
        if model.execution_state.package_code_executed {
            "true"
        } else {
            "false"
        },
    );
    out.append("\n\n[Heuristics]\n");
    out.append(render_heuristics(model).as_str());
    out
}

/// Human lines for the command intent of an inspect model.
pub fn render_model_intent(model: &InspectModel, home: Option<&str>) -> (r: String)
    ensures
        r@ == command_intent_text(model.facts.command, crate::redaction::opt_view(home)),
{
    render_command_intent(&model.facts.command, home)
}

/// Human lines for the facts of an inspect model: its refusal, or else the
/// verified resolution with the optional registry lines and the static
/// extraction, or nothing when nothing was resolved.
pub open spec fn model_facts_text(m: InspectModel, home: Option<Seq<char>>) -> Seq<char> {
    match m.facts.refusal {
        Some(f) => "M1 evidence: "@ + refusal_state_text(f.state) + "\nReason: "@ + m1_reason_text(f.reason)
            + "\nDownloaded: "@ + bool_text(f.downloaded) + "\n"@ + match f.detail {
            Some(d) => "Detail: "@ + redacted(d@, home) + "\n"@,
            None => Seq::empty(),
        },
        None => match (m.facts.resolved_package, m.facts.artifact, m.facts.registry) {
            (Some(p), Some(a), Some(reg)) => "M1 evidence: verified\nResolved: "@ + p.name@ + "@"@ + p.version@
                + "\nRegistry: "@ + redacted(p.registry.url@, home) + "\nRegistry evidence: "@
                + reg.evidence_boundary@ + "\nTarball: "@ + redacted(p.tarball_url@, home)
                + "\nIntegrity: verified\nIntegrity metadata: "@ + p.integrity@ + "\nDigest: "@
                + a.digest_algorithm@ + ":"@ + a.digest@ + "\n"@ + registry_optional_text(reg@, home)
                + static_extraction_text(m.facts.root_package),
            _ => Seq::empty(),
        },
    }
}

/// Human lines for the facts of an inspect model. Verified facts carry the
/// artifact identity and the registry evidence with the resolved package.
pub fn render_model_facts(model: &InspectModel, home: Option<&str>) -> (r: String)
    requires
        model.facts.refusal is None && model.facts.resolved_package is Some ==> model.facts.artifact is Some
            && model.facts.registry is Some,
    ensures
        r@ == model_facts_text(*model, crate::redaction::opt_view(home)),
{
    let mut out = String::new();
    match &model.facts.refusal {
        Some(f) => {
            out.append("M1 evidence: ");
            out.append(refusal_state_name(f.state));
            out.append("\nReason: ");
            out.append(m1_reason_name(&f.reason));
            out.append("\nDownloaded: ");
            out.append(bool_name(f.downloaded));
            out.append("\n");
            match &f.detail {
                Some(d) => {
                    out.append("Detail: ");
                    out.append(redact_report_value(d.as_str(), home).as_str());
                    out.append("\n");
                },
                None => {},
            }
        },
        None => match (&model.facts.resolved_package, &model.facts.artifact, &model.facts.registry) {
            (Some(p), Some(a), Some(reg)) => {
                out.append("M1 evidence: verified\nResolved: ");
                out.append(p.name.as_str());
                out.append("@");
                out.append(p.version.as_str());
                out.append("\nRegistry: ");
                out.append(redact_report_value(p.registry.url.as_str(), home).as_str());
                out.append("\nRegistry evidence: ");
                out.append(reg.evidence_boundary);
                out.append("\nTarball: ");
                out.append(redact_report_value(p.tarball_url.as_str(), home).as_str());
                out.append("\nIntegrity: verified\nIntegrity metadata: ");
                out.append(p.integrity.as_str());
                out.append("\nDigest: ");
                out.append(a.digest_algorithm.as_str());
                out.append(":");
                out.append(a.digest.as_str());
                out.append("\n");
                out.append(render_registry_optional_evidence(reg, home).as_str());
                out.append(render_static_extraction(model.facts.root_package.as_ref()).as_str());
            },
            _ => {},
        },
    }
    out
}

} // verus!
