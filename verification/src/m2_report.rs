//! Closure refusal reports: the decision, next action and exit code that a
//! list of refusal reasons implies, and their text and JSON forms.

use vstd::prelude::*;
use crate::closure::{ClosureCommandIdentity, ClosureDecision, M2Reason};
use crate::json_out::{
    json_str_array, push_member, str_values, view_members, JsonOut, JsonV,
};
use crate::numbers::{decimal, i32_to_decimal};
use crate::policy::{
    decision_exit_code, evaluate_m2_policy, exit_code_for_policy_decision, m2_decision_model,
    m2_next_action_model, PolicyDecision, PolicyNextAction,
};
use crate::text::{concat2, join, string_views};

verus! {

/// Agent-readable next action vocabulary.
#[derive(Clone, Copy, Debug, PartialEq, Eq, Structural)]
pub enum RequiredNextAction {
    /// No action is required.
    NoAction,
    /// Ask a human before proceeding.
    AskUser,
    /// Retry with a narrower exact command shape.
    RetryNarrowerCommand,
    /// Inspect only; execution is not available for this closure.
    InspectOnly,
    /// Use a future explicit override path.
    ExplicitOverride,
    /// The requested command shape is unsupported.
    Unsupported,
}

/// Execution details populated only when package code actually runs.
#[derive(Clone, Debug, PartialEq, Eq)]
pub struct ExecutionReport {
    /// Executed program path or identifier.
    pub program: String,
    /// Discrete argv passed to the program.
    pub argv: Vec<String>,
    /// Process exit code returned by execution.
    pub exit_code: Option<i32>,
}

/// Report emitted when execution is refused after inspection succeeds.
#[derive(Clone, Debug, PartialEq, Eq)]
pub struct M2ExecutionRefusalReport {
    /// Command identity requested by the caller.
    pub command: ClosureCommandIdentity,
    /// Stable execution decision.
    pub decision: ClosureDecision,
    /// Stable machine-readable refusal reasons.
    pub reasons: Vec<M2Reason>,
    /// Next action available to a human or agent.
    pub required_next_action: RequiredNextAction,
    /// Execution evidence; absent because refused paths never run package code.
    pub execution: Option<ExecutionReport>,
    /// Deterministic process exit code for this stop.
    pub exit_code: i32,
}

pub open spec fn next_action_of_policy(a: PolicyNextAction) -> RequiredNextAction {
    match a {
        PolicyNextAction::NoAction => RequiredNextAction::NoAction,
        PolicyNextAction::AskUser => RequiredNextAction::AskUser,
        PolicyNextAction::RetryNarrowerCommand => RequiredNextAction::RetryNarrowerCommand,
        PolicyNextAction::InspectOnly => RequiredNextAction::InspectOnly,
        PolicyNextAction::ExplicitOverride => RequiredNextAction::ExplicitOverride,
        PolicyNextAction::Unsupported => RequiredNextAction::Unsupported,
    }
}

pub open spec fn closure_of_policy(d: PolicyDecision) -> ClosureDecision {
    match d {
        PolicyDecision::Allow => ClosureDecision::Allow,
        PolicyDecision::Ask => ClosureDecision::Ask,
        PolicyDecision::Deny => ClosureDecision::Deny,
        PolicyDecision::Unsupported => ClosureDecision::Unsupported,
        PolicyDecision::InspectionError => ClosureDecision::InspectionError,
        PolicyDecision::ExecutionRefused => ClosureDecision::ExecutionRefused,
    }
}

pub open spec fn policy_of_closure(d: ClosureDecision) -> PolicyDecision {
    match d {
        ClosureDecision::Allow => PolicyDecision::Allow,
        ClosureDecision::Ask => PolicyDecision::Ask,
        ClosureDecision::Deny => PolicyDecision::Deny,
        ClosureDecision::Unsupported => PolicyDecision::Unsupported,
        ClosureDecision::InspectionError => PolicyDecision::InspectionError,
        ClosureDecision::ExecutionRefused => PolicyDecision::ExecutionRefused,
    }
}

/// Return the next action implied by closure refusal reasons.
pub fn required_next_action_for_m2_reasons(reasons: &[M2Reason]) -> (r: RequiredNextAction)
    ensures
        r == next_action_of_policy(m2_next_action_model(reasons@)),
{
    match evaluate_m2_policy(reasons).required_next_action {
        PolicyNextAction::NoAction => RequiredNextAction::NoAction,
        PolicyNextAction::AskUser => RequiredNextAction::AskUser,
        PolicyNextAction::RetryNarrowerCommand => RequiredNextAction::RetryNarrowerCommand,
        PolicyNextAction::InspectOnly => RequiredNextAction::InspectOnly,
        PolicyNextAction::ExplicitOverride => RequiredNextAction::ExplicitOverride,
        PolicyNextAction::Unsupported => RequiredNextAction::Unsupported,
    }
}

/// Return the closure decision for a set of refusal reasons.
pub fn closure_decision_for_m2_reasons(reasons: &[M2Reason]) -> (r: ClosureDecision)
    ensures
        r == closure_of_policy(m2_decision_model(reasons@)),
{
    match evaluate_m2_policy(reasons).decision {
        PolicyDecision::Allow => ClosureDecision::Allow,
        PolicyDecision::Ask => ClosureDecision::Ask,
        PolicyDecision::Deny => ClosureDecision::Deny,
        PolicyDecision::Unsupported => ClosureDecision::Unsupported,
        PolicyDecision::InspectionError => ClosureDecision::InspectionError,
        PolicyDecision::ExecutionRefused => ClosureDecision::ExecutionRefused,
    }
}

/// Return the process exit code for a closure decision.
pub fn exit_code_for_closure_decision(decision: &ClosureDecision) -> (r: i32)
    ensures
        r == decision_exit_code(policy_of_closure(*decision)),
{
    let policy = match decision {
        ClosureDecision::Allow => PolicyDecision::Allow,
        ClosureDecision::Ask => PolicyDecision::Ask,
        ClosureDecision::Deny => PolicyDecision::Deny,
        ClosureDecision::Unsupported => PolicyDecision::Unsupported,
        ClosureDecision::InspectionError => PolicyDecision::InspectionError,
        ClosureDecision::ExecutionRefused => PolicyDecision::ExecutionRefused,
    };
    exit_code_for_policy_decision(&policy)
}

/// The refusal report a command and reasons yield.
pub open spec fn refusal_report_holds(
    r: M2ExecutionRefusalReport,
    command: ClosureCommandIdentity,
    reasons: Seq<M2Reason>,
) -> bool {
    &&& r.command == command
    &&& r.reasons@ == reasons
    &&& r.decision == closure_of_policy(m2_decision_model(reasons))
    &&& r.required_next_action == next_action_of_policy(m2_next_action_model(reasons))
    &&& r.execution is None
    &&& r.exit_code == decision_exit_code(m2_decision_model(reasons))
}

/// Build a deterministic refusal report for an unproven closure.
pub fn build_m2_execution_refusal_report(
    command: ClosureCommandIdentity,
    reasons: Vec<M2Reason>,
) -> (r: M2ExecutionRefusalReport)
    ensures
        refusal_report_holds(r, command, reasons@),
{
    let decision = closure_decision_for_m2_reasons(reasons.as_slice());
    let required_next_action = required_next_action_for_m2_reasons(reasons.as_slice());
    let exit_code = exit_code_for_closure_decision(&decision);
    proof {
        assert(policy_of_closure(closure_of_policy(m2_decision_model(reasons@)))
            == m2_decision_model(reasons@));
    }
    M2ExecutionRefusalReport {
        command,
        decision,
        reasons,
        required_next_action,
        execution: None,
        exit_code,
    }
}

/// Convert an interactive ask into a non-interactive stop.
pub fn build_m2_non_interactive_stop_report(command: ClosureCommandIdentity) -> (r:
    M2ExecutionRefusalReport)
    ensures
        refusal_report_holds(r, command, seq![M2Reason::NonInteractiveStop]),
{
    let reasons = vec![M2Reason::NonInteractiveStop];
    assert(reasons@ =~= seq![M2Reason::NonInteractiveStop]);
    build_m2_execution_refusal_report(command, reasons)
}

/// Stable name of a closure decision.
pub open spec fn closure_decision_text(d: ClosureDecision) -> Seq<char> {
    match d {
        ClosureDecision::Allow => "allow"@,
        ClosureDecision::Ask => "ask"@,
        ClosureDecision::Deny => "deny"@,
        ClosureDecision::Unsupported => "unsupported"@,
        ClosureDecision::InspectionError => "inspection_error"@,
        ClosureDecision::ExecutionRefused => "execution_refused"@,
    }
}

/// Stable name of a next action.
pub open spec fn next_action_text(a: RequiredNextAction) -> Seq<char> {
    match a {
        RequiredNextAction::NoAction => "none"@,
        RequiredNextAction::AskUser => "ask_user"@,
        RequiredNextAction::RetryNarrowerCommand => "retry_narrower_command"@,
        RequiredNextAction::InspectOnly => "inspect_only"@,
        RequiredNextAction::ExplicitOverride => "explicit_override"@,
        RequiredNextAction::Unsupported => "unsupported"@,
    }
}

/// Stable name of a closure reason.
pub open spec fn m2_reason_text(r: M2Reason) -> Seq<char> {
    match r {
        M2Reason::InteractiveApprovalRequired => "interactive_approval_required"@,
        M2Reason::AmbiguousBin => "ambiguous_bin"@,
        M2Reason::MissingBin => "missing_bin"@,
        M2Reason::LifecycleScriptPresent => "lifecycle_script_present"@,
        M2Reason::UnsupportedClosure => "unsupported_closure"@,
        M2Reason::MetadataChanged => "metadata_changed"@,
        M2Reason::CacheIdentityMismatch => "cache_identity_mismatch"@,
        M2Reason::RegistryPrecedenceMismatch => "registry_precedence_mismatch"@,
        M2Reason::ShimIdentityMismatch => "shim_identity_mismatch"@,
        M2Reason::NonInteractiveStop => "non_interactive_stop"@,
    }
}

/// Return the stable name of a closure decision.
pub fn closure_decision_name(decision: &ClosureDecision) -> (r: &'static str)
    ensures
        r@ == closure_decision_text(*decision),
{
    match decision {
        ClosureDecision::Allow => "allow",
        ClosureDecision::Ask => "ask",
        ClosureDecision::Deny => "deny",
        ClosureDecision::Unsupported => "unsupported",
        ClosureDecision::InspectionError => "inspection_error",
        ClosureDecision::ExecutionRefused => "execution_refused",
    }
}

/// Return the stable name of a next action.
pub fn required_next_action_name(action: &RequiredNextAction) -> (r: &'static str)
    ensures
        r@ == next_action_text(*action),
{
    match action {
        RequiredNextAction::NoAction => "none",
        RequiredNextAction::AskUser => "ask_user",
        RequiredNextAction::RetryNarrowerCommand => "retry_narrower_command",
        RequiredNextAction::InspectOnly => "inspect_only",
        RequiredNextAction::ExplicitOverride => "explicit_override",
        RequiredNextAction::Unsupported => "unsupported",
    }
}

/// Return the stable name of a closure reason.
pub fn m2_reason_name(reason: &M2Reason) -> (r: &'static str)
    ensures
        r@ == m2_reason_text(*reason),
{
    match reason {
        M2Reason::InteractiveApprovalRequired => "interactive_approval_required",
        M2Reason::AmbiguousBin => "ambiguous_bin",
        M2Reason::MissingBin => "missing_bin",
        M2Reason::LifecycleScriptPresent => "lifecycle_script_present",
        M2Reason::UnsupportedClosure => "unsupported_closure",
        M2Reason::MetadataChanged => "metadata_changed",
        M2Reason::CacheIdentityMismatch => "cache_identity_mismatch",
        M2Reason::RegistryPrecedenceMismatch => "registry_precedence_mismatch",
        M2Reason::ShimIdentityMismatch => "shim_identity_mismatch",
        M2Reason::NonInteractiveStop => "non_interactive_stop",
    }
}

/// Stable reason names.
pub open spec fn reason_texts(reasons: Seq<M2Reason>) -> Seq<Seq<char>> {
    reasons.map_values(|r: M2Reason| m2_reason_text(r))
}

pub(crate) fn reason_names(reasons: &[M2Reason]) -> (r: Vec<String>)
    ensures
        string_views(r@) == reason_texts(reasons@),
{
    let mut out: Vec<String> = Vec::new();
    let mut i: usize = 0;
    while i < reasons.len()
        invariant
            i <= reasons@.len(),
            string_views(out@) == reason_texts(reasons@.subrange(0, i as int)),
        decreases reasons@.len() - i,
    {
        let name = m2_reason_name(&reasons[i]).to_owned();
        proof {
            assert(string_views(out@.push(name)) == string_views(out@).push(name@));
            assert(reason_texts(reasons@.subrange(0, i + 1)) == reason_texts(
                reasons@.subrange(0, i as int),
            ).push(m2_reason_text(reasons@[i as int])));
        }
        out.push(name);
        i = i + 1;
    }
    assert(reasons@.subrange(0, reasons@.len() as int) == reasons@);
    out
}

/// Format closure reasons as comma-separated names.
pub fn format_m2_reasons(reasons: &[M2Reason]) -> (r: String)
    ensures
        r@ == join(reason_texts(reasons@), ", "@),
{
    let names = reason_names(reasons);
    crate::text::join_strings(&names, ", ")
}

/// Human text of a refusal report.
pub open spec fn refusal_text(r: M2ExecutionRefusalReport) -> Seq<char> {
    "Execution refused\nPackage: "@ + r.command.requested@ + "\nDecision: "@
        + closure_decision_text(r.decision) + "\nReasons: "@ + join(
        reason_texts(r.reasons@),
        ", "@,
    ) + "\nRequired next action: "@ + next_action_text(r.required_next_action)
        + "\nExit code: "@ + crate::numbers::i32_text(r.exit_code)
        + "\nNo package code was executed.\n"@
}

/// Render a refusal report for humans.
pub fn render_m2_execution_refusal_text(report: &M2ExecutionRefusalReport) -> (r: String)
    ensures
        r@ == refusal_text(*report),
{
    let mut out = String::new();
    out.append("Execution refused\nPackage: ");
    out.append(report.command.requested.as_str());
    out.append("\nDecision: ");
    out.append(closure_decision_name(&report.decision));
    out.append("\nReasons: ");
    out.append(format_m2_reasons(report.reasons.as_slice()).as_str());
    out.append("\nRequired next action: ");
    out.append(required_next_action_name(&report.required_next_action));
    out.append("\nExit code: ");
    out.append(i32_to_decimal(report.exit_code).as_str());
    out.append("\nNo package code was executed.\n");
    out
}

/// JSON of a refusal report.
pub open spec fn refusal_json(r: M2ExecutionRefusalReport) -> JsonV {
    JsonV::Object(
        seq![
            ("command"@, JsonV::Object(seq![
                ("requested"@, JsonV::Str(r.command.requested@)),
                ("forwarded_args"@, JsonV::Array(str_values(string_views(r.command.forwarded_args@)))),
            ])),
            ("decision"@, JsonV::Str(closure_decision_text(r.decision))),
            ("reasons"@, JsonV::Array(str_values(reason_texts(r.reasons@)))),
            ("required_next_action"@, JsonV::Str(next_action_text(r.required_next_action))),
            ("execution"@, execution_json_model(r.execution)),
            ("exit_code"@, JsonV::Number(crate::numbers::i32_text(r.exit_code))),
        ],
    )
}

/// JSON of execution details, `null` when nothing ran.
pub open spec fn execution_json_model(e: Option<ExecutionReport>) -> JsonV {
    match e {
        None => JsonV::Null,
        Some(x) => JsonV::Object(
            seq![
                ("program"@, JsonV::Str(x.program@)),
                ("argv"@, JsonV::Array(str_values(string_views(x.argv@)))),
                ("exit_code"@, match x.exit_code {
                    Some(c) => JsonV::Number(crate::numbers::i32_text(c)),
                    None => JsonV::Null,
                }),
            ],
        ),
    }
}

fn execution_json(e: &Option<ExecutionReport>) -> (r: JsonOut)
    ensures
        r@ == execution_json_model(*e),
{
    match e {
        None => JsonOut::Null,
        Some(x) => {
            let mut m: Vec<(String, JsonOut)> = Vec::new();
            push_member(&mut m, "program", JsonOut::Str(x.program.clone()));
            push_member(&mut m, "argv", json_str_array(&x.argv));
            let code = match x.exit_code {
                Some(c) => JsonOut::Number(i32_to_decimal(c)),
                None => JsonOut::Null,
            };
            push_member(&mut m, "exit_code", code);
            proof {
                assert(view_members(m@) =~= match execution_json_model(*e) {
                    JsonV::Object(x) => x,
                    _ => Seq::empty(),
                });
            }
            JsonOut::Object(m)
        },
    }
}

/// The JSON value of a refusal report.
pub fn m2_refusal_json(report: &M2ExecutionRefusalReport) -> (r: JsonOut)
    ensures
        r@ == refusal_json(*report),
{
    let mut command: Vec<(String, JsonOut)> = Vec::new();
    assert(view_members(command@) =~= Seq::empty());
    let req = JsonOut::Str(report.command.requested.clone());
    assert(req@ == JsonV::Str(report.command.requested@));
    push_member(&mut command, "requested", req);
    assert(view_members(command@) =~= seq![("requested"@, JsonV::Str(report.command.requested@))]);
    push_member(&mut command, "forwarded_args", json_str_array(&report.command.forwarded_args));
    assert(view_members(command@) =~= seq![
        ("requested"@, JsonV::Str(report.command.requested@)),
        ("forwarded_args"@, JsonV::Array(str_values(string_views(report.command.forwarded_args@)))),
    ]);
    let mut members: Vec<(String, JsonOut)> = Vec::new();
    push_member(&mut members, "command", JsonOut::Object(command));
    push_member(&mut members, "decision", JsonOut::Str(closure_decision_name(&report.decision).to_owned()));
    let names = reason_names(report.reasons.as_slice());
    push_member(&mut members, "reasons", json_str_array(&names));
    push_member(
        &mut members,
        "required_next_action",
        JsonOut::Str(required_next_action_name(&report.required_next_action).to_owned()),
    );
    push_member(&mut members, "execution", execution_json(&report.execution));
    push_member(&mut members, "exit_code", JsonOut::Number(i32_to_decimal(report.exit_code)));
    let r = JsonOut::Object(members);
    assert(view_members(members@) =~= match refusal_json(*report) {
        JsonV::Object(m) => m,
        _ => Seq::empty(),
    });
    r
}

} // verus!
