//! Decision and next-action vocabulary of the inspect JSON schema, and the
//! policy names it writes.

use vstd::prelude::*;
use crate::policy::{
    finding_views, FindingModel, PolicyDecision, PolicyEvaluation, PolicyFinding, PolicyModel,
    PolicyNextAction, PolicyReason, PolicyRuleId,
};
use crate::authority_context::{authority_model, build_authority_context, AmbientPaths, AuthorityView};
use crate::closure::ClosureCommandIdentity;
use crate::contracts::SourceContext;
use crate::inspect_json::{authority_json, authority_json_model};
use crate::json_out::{
    json_str_array, push_item, push_member, str_values, view_items, view_members, JsonOut, JsonV,
};
use crate::json_sort::{sorted_copy, sorted_json};
use crate::m2_report::{
    closure_decision_name, closure_decision_text, next_action_text, reason_names, reason_texts,
    required_next_action_name, M2ExecutionRefusalReport,
};
use crate::numbers::{i32_text, i32_to_decimal};
use crate::text::string_views;

verus! {

/// Schema version of inspect JSON reports.
pub const INSPECT_JSON_SCHEMA_VERSION: &'static str = "0.1";

/// Decision vocabulary of inspect JSON reports.
#[derive(Clone, Copy, Debug, PartialEq, Eq, Structural)]
pub enum InspectJsonDecision {
    /// Execution may proceed.
    Allow,
    /// A human must decide.
    Ask,
    /// Execution is denied.
    Deny,
    /// The input or command shape is unsupported.
    Unsupported,
    /// Evidence could not be collected.
    InspectionError,
    /// Execution closure could not be proven.
    ExecutionRefused,
}

/// Next-action vocabulary of inspect JSON reports.
#[derive(Clone, Copy, Debug, PartialEq, Eq, Structural)]
pub enum InspectJsonNextAction {
    /// Nothing more is required.
    NoAction,
    /// Ask a human.
    AskUser,
    /// Retry with a narrower command.
    RetryNarrowerCommand,
    /// Inspect only; do not execute.
    InspectOnly,
    /// An explicit override is required.
    ExplicitOverride,
    /// The command is unsupported.
    Unsupported,
}

/// The JSON decision of a policy decision.
pub open spec fn json_decision_of(d: PolicyDecision) -> InspectJsonDecision {
    match d {
        PolicyDecision::Allow => InspectJsonDecision::Allow,
        PolicyDecision::Ask => InspectJsonDecision::Ask,
        PolicyDecision::Deny => InspectJsonDecision::Deny,
        PolicyDecision::Unsupported => InspectJsonDecision::Unsupported,
        PolicyDecision::InspectionError => InspectJsonDecision::InspectionError,
        PolicyDecision::ExecutionRefused => InspectJsonDecision::ExecutionRefused,
    }
}

/// The JSON next action of a policy next action.
pub open spec fn json_next_action_of(a: PolicyNextAction) -> InspectJsonNextAction {
    match a {
        PolicyNextAction::NoAction => InspectJsonNextAction::NoAction,
        PolicyNextAction::AskUser => InspectJsonNextAction::AskUser,
        PolicyNextAction::RetryNarrowerCommand => InspectJsonNextAction::RetryNarrowerCommand,
        PolicyNextAction::InspectOnly => InspectJsonNextAction::InspectOnly,
        PolicyNextAction::ExplicitOverride => InspectJsonNextAction::ExplicitOverride,
        PolicyNextAction::Unsupported => InspectJsonNextAction::Unsupported,
    }
}

/// Map a policy decision into the JSON vocabulary.
pub fn inspect_json_decision_for_policy(decision: &PolicyDecision) -> (r: InspectJsonDecision)
    ensures
        r == json_decision_of(*decision),
{
    match decision {
        PolicyDecision::Allow => InspectJsonDecision::Allow,
        PolicyDecision::Ask => InspectJsonDecision::Ask,
        PolicyDecision::Deny => InspectJsonDecision::Deny,
        PolicyDecision::Unsupported => InspectJsonDecision::Unsupported,
        PolicyDecision::InspectionError => InspectJsonDecision::InspectionError,
        PolicyDecision::ExecutionRefused => InspectJsonDecision::ExecutionRefused,
    }
}

/// Map a policy next action into the JSON vocabulary.
pub fn inspect_json_next_action_for_policy(action: &PolicyNextAction) -> (r: InspectJsonNextAction)
    ensures
        r == json_next_action_of(*action),
{
    match action {
        PolicyNextAction::NoAction => InspectJsonNextAction::NoAction,
        PolicyNextAction::AskUser => InspectJsonNextAction::AskUser,
        PolicyNextAction::RetryNarrowerCommand => InspectJsonNextAction::RetryNarrowerCommand,
        PolicyNextAction::InspectOnly => InspectJsonNextAction::InspectOnly,
        PolicyNextAction::ExplicitOverride => InspectJsonNextAction::ExplicitOverride,
        PolicyNextAction::Unsupported => InspectJsonNextAction::Unsupported,
    }
}

/// Stable name of a JSON decision.
pub open spec fn json_decision_text(d: InspectJsonDecision) -> Seq<char> {
    match d {
        InspectJsonDecision::Allow => "allow"@,
        InspectJsonDecision::Ask => "ask"@,
        InspectJsonDecision::Deny => "deny"@,
        InspectJsonDecision::Unsupported => "unsupported"@,
        InspectJsonDecision::InspectionError => "inspection_error"@,
        InspectJsonDecision::ExecutionRefused => "execution_refused"@,
    }
}

/// Stable name of a JSON decision.
pub fn json_decision_name(d: InspectJsonDecision) -> (r: &'static str)
    ensures
        r@ == json_decision_text(d),
{
    match d {
        InspectJsonDecision::Allow => "allow",
        InspectJsonDecision::Ask => "ask",
        InspectJsonDecision::Deny => "deny",
        InspectJsonDecision::Unsupported => "unsupported",
        InspectJsonDecision::InspectionError => "inspection_error",
        InspectJsonDecision::ExecutionRefused => "execution_refused",
    }
}

/// Stable name of a JSON next action.
pub open spec fn json_next_action_text(a: InspectJsonNextAction) -> Seq<char> {
    match a {
        InspectJsonNextAction::NoAction => "none"@,
        InspectJsonNextAction::AskUser => "ask_user"@,
        InspectJsonNextAction::RetryNarrowerCommand => "retry_narrower_command"@,
        InspectJsonNextAction::InspectOnly => "inspect_only"@,
        InspectJsonNextAction::ExplicitOverride => "explicit_override"@,
        InspectJsonNextAction::Unsupported => "unsupported"@,
    }
}

/// Stable name of a JSON next action.
pub fn json_next_action_name(a: InspectJsonNextAction) -> (r: &'static str)
    ensures
        r@ == json_next_action_text(a),
{
    match a {
        InspectJsonNextAction::NoAction => "none",
        InspectJsonNextAction::AskUser => "ask_user",
        InspectJsonNextAction::RetryNarrowerCommand => "retry_narrower_command",
        InspectJsonNextAction::InspectOnly => "inspect_only",
        InspectJsonNextAction::ExplicitOverride => "explicit_override",
        InspectJsonNextAction::Unsupported => "unsupported",
    }
}

/// Stable name of a policy reason.
pub open spec fn policy_reason_text(r: PolicyReason) -> Seq<char> {
    match r {
        PolicyReason::CallerRequestedAllow => "caller_requested_allow"@,
        PolicyReason::CallerRequestedAsk => "caller_requested_ask"@,
        PolicyReason::CallerRequestedDeny => "caller_requested_deny"@,
        PolicyReason::UnsupportedSpec => "unsupported_spec"@,
        PolicyReason::MalformedSpec => "malformed_spec"@,
        PolicyReason::RegistryError => "registry_error"@,
        PolicyReason::IntegrityMismatch => "integrity_mismatch"@,
        PolicyReason::MissingPackage => "missing_package"@,
        PolicyReason::MissingVersion => "missing_version"@,
        PolicyReason::AmbiguousBin => "ambiguous_bin"@,
        PolicyReason::MissingBin => "missing_bin"@,
        PolicyReason::LifecycleScriptPresent => "lifecycle_script_present"@,
        PolicyReason::UnsupportedClosure => "unsupported_closure"@,
        PolicyReason::MetadataChanged => "metadata_changed"@,
        PolicyReason::CacheIdentityMismatch => "cache_identity_mismatch"@,
        PolicyReason::RegistryPrecedenceMismatch => "registry_precedence_mismatch"@,
        PolicyReason::ShimIdentityMismatch => "shim_identity_mismatch"@,
        PolicyReason::NonInteractiveStop => "non_interactive_stop"@,
        PolicyReason::RecentPublish => "recent_publish"@,
        PolicyReason::LargePackage => "large_package"@,
        PolicyReason::LargeFileCount => "large_file_count"@,
    }
}

/// Stable name of a policy reason.
pub fn policy_reason_name(r: PolicyReason) -> (s: &'static str)
    ensures
        s@ == policy_reason_text(r),
{
    match r {
        PolicyReason::CallerRequestedAllow => "caller_requested_allow",
        PolicyReason::CallerRequestedAsk => "caller_requested_ask",
        PolicyReason::CallerRequestedDeny => "caller_requested_deny",
        PolicyReason::UnsupportedSpec => "unsupported_spec",
        PolicyReason::MalformedSpec => "malformed_spec",
        PolicyReason::RegistryError => "registry_error",
        PolicyReason::IntegrityMismatch => "integrity_mismatch",
        PolicyReason::MissingPackage => "missing_package",
        PolicyReason::MissingVersion => "missing_version",
        PolicyReason::AmbiguousBin => "ambiguous_bin",
        PolicyReason::MissingBin => "missing_bin",
        PolicyReason::LifecycleScriptPresent => "lifecycle_script_present",
        PolicyReason::UnsupportedClosure => "unsupported_closure",
        PolicyReason::MetadataChanged => "metadata_changed",
        PolicyReason::CacheIdentityMismatch => "cache_identity_mismatch",
        PolicyReason::RegistryPrecedenceMismatch => "registry_precedence_mismatch",
        PolicyReason::ShimIdentityMismatch => "shim_identity_mismatch",
        PolicyReason::NonInteractiveStop => "non_interactive_stop",
        PolicyReason::RecentPublish => "recent_publish",
        PolicyReason::LargePackage => "large_package",
        PolicyReason::LargeFileCount => "large_file_count",
    }
}

/// Names of policy reasons, in order.
pub open spec fn policy_reason_texts(rs: Seq<PolicyReason>) -> Seq<Seq<char>> {
    rs.map_values(|r: PolicyReason| policy_reason_text(r))
}

/// Names of policy reasons, in order.
pub fn policy_reason_names(rs: &Vec<PolicyReason>) -> (r: Vec<String>)
    ensures
        crate::text::string_views(r@) == policy_reason_texts(rs@),
{
    let mut out: Vec<String> = Vec::new();
    let mut i: usize = 0;
    while i < rs.len()
        invariant
            i <= rs@.len(),
            crate::text::string_views(out@) == policy_reason_texts(rs@.subrange(0, i as int)),
        decreases rs@.len() - i,
    {
        let name = policy_reason_name(rs[i]).to_owned();
        let ghost before = out@;
        out.push(name);
        assert(crate::text::string_views(out@) == crate::text::string_views(before).push(name@));
        assert(rs@.subrange(0, i + 1) == rs@.subrange(0, i as int).push(rs@[i as int]));
        i = i + 1;
    }
    assert(rs@.subrange(0, rs@.len() as int) == rs@);
    out
}

/// Stable name of a policy rule.
pub open spec fn rule_id_text(r: PolicyRuleId) -> Seq<char> {
    match r {
        PolicyRuleId::CallerRecommendation => "caller_recommendation"@,
        PolicyRuleId::UnsupportedInput => "unsupported_input"@,
        PolicyRuleId::MalformedInput => "malformed_input"@,
        PolicyRuleId::IntegrityMismatch => "integrity_mismatch"@,
        PolicyRuleId::InspectionUnavailable => "inspection_unavailable"@,
        PolicyRuleId::ResolverAmbiguity => "resolver_ambiguity"@,
        PolicyRuleId::UnsupportedClosure => "unsupported_closure"@,
        PolicyRuleId::LifecycleScript => "lifecycle_script"@,
        PolicyRuleId::IdentityDrift => "identity_drift"@,
        PolicyRuleId::NonInteractiveStop => "non_interactive_stop"@,
        PolicyRuleId::RecentPublish => "recent_publish"@,
        PolicyRuleId::LargePackage => "large_package"@,
        PolicyRuleId::LargeFileCount => "large_file_count"@,
    }
}

/// Stable name of a policy rule.
pub fn rule_id_name(r: PolicyRuleId) -> (s: &'static str)
    ensures
        s@ == rule_id_text(r),
{
    match r {
        PolicyRuleId::CallerRecommendation => "caller_recommendation",
        PolicyRuleId::UnsupportedInput => "unsupported_input",
        PolicyRuleId::MalformedInput => "malformed_input",
        PolicyRuleId::IntegrityMismatch => "integrity_mismatch",
        PolicyRuleId::InspectionUnavailable => "inspection_unavailable",
        PolicyRuleId::ResolverAmbiguity => "resolver_ambiguity",
        PolicyRuleId::UnsupportedClosure => "unsupported_closure",
        PolicyRuleId::LifecycleScript => "lifecycle_script",
        PolicyRuleId::IdentityDrift => "identity_drift",
        PolicyRuleId::NonInteractiveStop => "non_interactive_stop",
        PolicyRuleId::RecentPublish => "recent_publish",
        PolicyRuleId::LargePackage => "large_package",
        PolicyRuleId::LargeFileCount => "large_file_count",
    }
}

/// JSON of a threshold finding.
pub open spec fn finding_json_model(f: FindingModel) -> JsonV {
    JsonV::Object(
        seq![
            ("reason"@, JsonV::Str(policy_reason_text(f.reason))),
            ("rule_id"@, JsonV::Str(rule_id_text(f.rule_id))),
            ("observed"@, JsonV::Str(f.observed)),
            ("threshold"@, JsonV::Str(f.threshold)),
        ],
    )
}

/// JSON of a policy result carrying the policy version `version`: its
/// decision, reasons, next action, fired rules and threshold findings.
pub open spec fn policy_json_model(p: PolicyModel, version: Seq<char>) -> JsonV {
    JsonV::Object(
        seq![
            ("policy_version"@, JsonV::Str(version)),
            ("decision"@, JsonV::Str(json_decision_text(json_decision_of(p.decision)))),
            ("reasons"@, JsonV::Array(str_values(policy_reason_texts(p.reasons)))),
            ("required_next_action"@, JsonV::Str(json_next_action_text(json_next_action_of(p.next_action)))),
            ("rule_ids"@, JsonV::Array(str_values(p.rule_ids.map_values(|r: PolicyRuleId| rule_id_text(r))))),
            ("findings"@, JsonV::Array(p.findings.map_values(|f: FindingModel| finding_json_model(f)))),
        ],
    )
}

fn finding_json(f: &PolicyFinding) -> (j: JsonOut)
    ensures
        j@ == finding_json_model(f@),
{
    let mut m: Vec<(String, JsonOut)> = Vec::new();
    push_member(&mut m, "reason", JsonOut::Str(policy_reason_name(f.reason).to_owned()));
    push_member(&mut m, "rule_id", JsonOut::Str(rule_id_name(f.rule_id).to_owned()));
    push_member(&mut m, "observed", JsonOut::Str(f.observed.clone()));
    push_member(&mut m, "threshold", JsonOut::Str(f.threshold.clone()));
    assert(view_members(m@) =~= match finding_json_model(f@) {
        JsonV::Object(x) => x,
        _ => Seq::empty(),
    });
    JsonOut::Object(m)
}

/// The JSON of a policy result.
pub fn policy_json(policy: &PolicyEvaluation) -> (j: JsonOut)
    ensures
        j@ == policy_json_model(policy@, policy.policy_version@),
{
    let mut rules: Vec<JsonOut> = Vec::new();
    let mut i: usize = 0;
    while i < policy.rule_ids.len()
        invariant
            i <= policy.rule_ids@.len(),
            view_items(rules@) == str_values(
                policy.rule_ids@.subrange(0, i as int).map_values(|r: PolicyRuleId| rule_id_text(r)),
            ),
        decreases policy.rule_ids@.len() - i,
    {
        push_item(&mut rules, JsonOut::Str(rule_id_name(policy.rule_ids[i]).to_owned()));
        proof {
            assert(str_values(
                policy.rule_ids@.subrange(0, i + 1).map_values(|r: PolicyRuleId| rule_id_text(r)),
            ) =~= str_values(
                policy.rule_ids@.subrange(0, i as int).map_values(|r: PolicyRuleId| rule_id_text(r)),
            ).push(JsonV::Str(rule_id_text(policy.rule_ids@[i as int]))));
        }
        i = i + 1;
    }
    assert(policy.rule_ids@.subrange(0, policy.rule_ids@.len() as int) == policy.rule_ids@);
    let mut findings: Vec<JsonOut> = Vec::new();
    let mut k: usize = 0;
    while k < policy.findings.len()
        invariant
            k <= policy.findings@.len(),
            view_items(findings@) == finding_views(policy.findings@.subrange(0, k as int)).map_values(
                |f: FindingModel| finding_json_model(f),
            ),
        decreases policy.findings@.len() - k,
    {
        push_item(&mut findings, finding_json(&policy.findings[k]));
        proof {
            assert(finding_views(policy.findings@.subrange(0, k + 1)).map_values(
                |f: FindingModel| finding_json_model(f),
            ) =~= finding_views(policy.findings@.subrange(0, k as int)).map_values(
                |f: FindingModel| finding_json_model(f),
            ).push(finding_json_model(policy.findings@[k as int]@)));
        }
        k = k + 1;
    }
    assert(policy.findings@.subrange(0, policy.findings@.len() as int) == policy.findings@);
    let reasons = policy_reason_names(&policy.reasons);
    let mut m: Vec<(String, JsonOut)> = Vec::new();
    push_member(&mut m, "policy_version", JsonOut::Str(policy.policy_version.to_owned()));
    push_member(
        &mut m,
        "decision",
        JsonOut::Str(json_decision_name(inspect_json_decision_for_policy(&policy.decision)).to_owned()),
    );
    push_member(&mut m, "reasons", json_str_array(&reasons));
    push_member(
        &mut m,
        "required_next_action",
        JsonOut::Str(json_next_action_name(inspect_json_next_action_for_policy(&policy.required_next_action)).to_owned()),
    );
    push_member(&mut m, "rule_ids", JsonOut::Array(rules));
    push_member(&mut m, "findings", JsonOut::Array(findings));
    assert(view_members(m@) =~= match policy_json_model(policy@, policy.policy_version@) {
        JsonV::Object(x) => x,
        _ => Seq::empty(),
    });
    JsonOut::Object(m)
}

/// JSON of a closure command identity, fields in declaration order.
pub open spec fn command_identity_json_model(c: ClosureCommandIdentity) -> JsonV {
    JsonV::Object(
        seq![
            ("requested"@, JsonV::Str(c.requested@)),
            ("forwarded_args"@, JsonV::Array(str_values(string_views(c.forwarded_args@)))),
        ],
    )
}

/// The inspect schema's envelope around a closure refusal, before its
/// objects are put in key order: no artifact, facts or receipt, an unknown
/// source context, and the authority context of the requested command.
pub open spec fn refusal_envelope_model(r: M2ExecutionRefusalReport, auth: AuthorityView) -> JsonV {
    JsonV::Object(
        seq![
            ("schema_version"@, JsonV::Str(INSPECT_JSON_SCHEMA_VERSION@)),
            ("artifact"@, JsonV::Null),
            ("command_intent"@, command_identity_json_model(r.command)),
            ("source_context"@, JsonV::Str("unknown"@)),
            ("authority_context"@, authority_json_model(auth)),
            ("facts"@, JsonV::Null),
            ("heuristics"@, JsonV::Array(Seq::empty())),
            ("external_evidence"@, JsonV::Null),
            ("attestations"@, JsonV::Null),
            ("release_diff"@, JsonV::Null),
            ("decision_receipt"@, JsonV::Null),
            ("decision"@, JsonV::Str(closure_decision_text(r.decision))),
            ("reasons"@, JsonV::Array(str_values(reason_texts(r.reasons@)))),
            ("required_next_action"@, JsonV::Str(next_action_text(r.required_next_action))),
            ("execution"@, JsonV::Null),
            ("exit_code"@, JsonV::Number(i32_text(r.exit_code))),
            ("command"@, command_identity_json_model(r.command)),
        ],
    )
}

/// The JSON of a closure command identity.
pub fn command_identity_json(c: &ClosureCommandIdentity) -> (j: JsonOut)
    ensures
        j@ == command_identity_json_model(*c),
{
    let mut m: Vec<(String, JsonOut)> = Vec::new();
    push_member(&mut m, "requested", JsonOut::Str(c.requested.clone()));
    push_member(&mut m, "forwarded_args", json_str_array(&c.forwarded_args));
    assert(view_members(m@) =~= match command_identity_json_model(*c) {
        JsonV::Object(x) => x,
        _ => Seq::empty(),
    });
    JsonOut::Object(m)
}

/// The inspect schema's JSON for a closure refusal, objects in key order at
/// every depth; the authority context is that of the requested command with
/// an unknown source context, no registry and no package scope, classified
/// against `ambient`.
pub fn build_m2_execution_refusal_json_report(report: &M2ExecutionRefusalReport, ambient: &AmbientPaths) -> (j:
    JsonOut)
    ensures
        j@ == sorted_json(
            refusal_envelope_model(
                *report,
                authority_model(
                    report.command.requested@,
                    SourceContext::Unknown,
                    None,
                    None,
                    ambient.cwd.deep_view(),
                    ambient.home.deep_view(),
                    ambient.temp_dir@,
                ),
            ),
        ),
{
    let authority = build_authority_context(
        report.command.requested.as_str(),
        &SourceContext::Unknown,
        None,
        None,
        ambient,
    );
    let mut m: Vec<(String, JsonOut)> = Vec::new();
    push_member(&mut m, "schema_version", JsonOut::Str(INSPECT_JSON_SCHEMA_VERSION.to_owned()));
    push_member(&mut m, "artifact", JsonOut::Null);
    push_member(&mut m, "command_intent", command_identity_json(&report.command));
    push_member(&mut m, "source_context", JsonOut::Str("unknown".to_owned()));
    push_member(&mut m, "authority_context", authority_json(&authority));
    push_member(&mut m, "facts", JsonOut::Null);
    let empty: Vec<JsonOut> = Vec::new();
    assert(crate::json_out::view_items(empty@) =~= Seq::<JsonV>::empty());
    push_member(&mut m, "heuristics", JsonOut::Array(empty));
    push_member(&mut m, "external_evidence", JsonOut::Null);
    push_member(&mut m, "attestations", JsonOut::Null);
    push_member(&mut m, "release_diff", JsonOut::Null);
    push_member(&mut m, "decision_receipt", JsonOut::Null);
    push_member(&mut m, "decision", JsonOut::Str(closure_decision_name(&report.decision).to_owned()));
    let names = reason_names(report.reasons.as_slice());
    push_member(&mut m, "reasons", json_str_array(&names));
    push_member(
        &mut m,
        "required_next_action",
        JsonOut::Str(required_next_action_name(&report.required_next_action).to_owned()),
    );
    push_member(&mut m, "execution", JsonOut::Null);
    push_member(&mut m, "exit_code", JsonOut::Number(i32_to_decimal(report.exit_code)));
    push_member(&mut m, "command", command_identity_json(&report.command));
    let envelope = JsonOut::Object(m);
    proof {
        reveal_strlit("unknown");
        reveal_strlit("0.1");
    }
    assert(view_members(m@) =~= match refusal_envelope_model(*report, authority@) {
        JsonV::Object(x) => x,
        _ => Seq::empty(),
    });
    sorted_copy(&envelope)
}

} // verus!
