//! Provisional policy evaluation: evidence and the caller's recommendation
//! in, a versioned decision with reasons, rule ids, threshold findings and a
//! required next action out.

use vstd::prelude::*;
use crate::closure::M2Reason;
use crate::contracts::{Decision, M1Reason};
use crate::evidence::{pair_views, M1Evidence, RegistryEvidence, StaticExtractionEvidence};
use crate::json_sort::{entries_in_key_order, pairs_in_key_order};
use crate::numbers::{decimal, u64_to_decimal};
use crate::policy_time::{parse_rfc3339_utc_seconds, rfc3339_utc_seconds};
use crate::text::{join, join_strings, string_views};

verus! {

/// Current provisional policy version.
pub const M4_POLICY_VERSION: &'static str = "m4-policy-v0";
/// Packages published less than this many seconds ago are recent.
pub const M4_RECENT_PUBLISH_WARNING_SECONDS: u64 = 86400;
/// Verified tarballs larger than this many bytes produce a warning.
pub const M4_LARGE_TARBALL_WARNING_BYTES: usize = 10485760;
/// Verified tarballs with more regular files than this produce a warning.
pub const M4_LARGE_FILE_COUNT_WARNING: usize = 1000;

/// Canonical decision vocabulary.
#[derive(Clone, Copy, Debug, PartialEq, Eq, Structural)]
pub enum PolicyDecision {
    /// Evidence and policy permit the requested action.
    Allow,
    /// A human decision is required before execution.
    Ask,
    /// A proof failure or known unsafe condition was found.
    Deny,
    /// The requested input or command shape is unsupported.
    Unsupported,
    /// Evidence could not be collected reliably.
    InspectionError,
    /// Inspection succeeded, but execution closure cannot be proven.
    ExecutionRefused,
}

/// Agent-readable next-action vocabulary.
#[derive(Clone, Copy, Debug, PartialEq, Eq, Structural)]
pub enum PolicyNextAction {
    /// No action is required (serialized as `none`).
    NoAction,
    /// Ask a human before proceeding.
    AskUser,
    /// Retry with a narrower exact command.
    RetryNarrowerCommand,
    /// Use inspect-only output; execution is not available.
    InspectOnly,
    /// Use a future explicit override path.
    ExplicitOverride,
    /// The requested command shape is unsupported.
    Unsupported,
}

/// Stable policy reasons.
#[derive(Clone, Copy, Debug, PartialEq, Eq, Structural)]
pub enum PolicyReason {
    CallerRequestedAllow,
    CallerRequestedAsk,
    CallerRequestedDeny,
    UnsupportedSpec,
    MalformedSpec,
    RegistryError,
    IntegrityMismatch,
    MissingPackage,
    MissingVersion,
    AmbiguousBin,
    MissingBin,
    LifecycleScriptPresent,
    UnsupportedClosure,
    MetadataChanged,
    CacheIdentityMismatch,
    RegistryPrecedenceMismatch,
    ShimIdentityMismatch,
    NonInteractiveStop,
    /// The exact version was published very recently.
    RecentPublish,
    /// The verified tarball is unusually large.
    LargePackage,
    /// The verified tarball holds unusually many files.
    LargeFileCount,
}

/// Stable identifiers for policy rules.
#[derive(Clone, Copy, Debug, PartialEq, Eq, Structural)]
pub enum PolicyRuleId {
    CallerRecommendation,
    UnsupportedInput,
    MalformedInput,
    IntegrityMismatch,
    InspectionUnavailable,
    ResolverAmbiguity,
    UnsupportedClosure,
    LifecycleScript,
    IdentityDrift,
    NonInteractiveStop,
    /// Recent-publish threshold.
    RecentPublish,
    /// Large-tarball threshold.
    LargePackage,
    /// Large-file-count threshold.
    LargeFileCount,
}

/// One threshold finding with the observed value and the threshold.
#[derive(Clone, Debug, PartialEq, Eq)]
pub struct PolicyFinding {
    /// Reason contributed by this finding.
    pub reason: PolicyReason,
    /// Rule that produced this finding.
    pub rule_id: PolicyRuleId,
    /// Observed value.
    pub observed: String,
    /// Threshold that was crossed.
    pub threshold: String,
}

/// Mathematical model of a [`PolicyFinding`].
pub struct FindingModel {
    pub reason: PolicyReason,
    pub rule_id: PolicyRuleId,
    pub observed: Seq<char>,
    pub threshold: Seq<char>,
}

impl View for PolicyFinding {
    type V = FindingModel;

    open spec fn view(&self) -> FindingModel {
        FindingModel {
            reason: self.reason,
            rule_id: self.rule_id,
            observed: self.observed@,
            threshold: self.threshold@,
        }
    }
}

pub open spec fn finding_views(v: Seq<PolicyFinding>) -> Seq<FindingModel> {
    v.map_values(|f: PolicyFinding| f@)
}

/// Versioned policy result consumed by reports, JSON, and exit codes.
#[derive(Clone, Debug, PartialEq, Eq)]
pub struct PolicyEvaluation {
    /// Provisional policy version that produced this result.
    pub policy_version: &'static str,
    /// Canonical decision.
    pub decision: PolicyDecision,
    /// Stable machine-readable reasons supporting the decision.
    pub reasons: Vec<PolicyReason>,
    /// Required next action.
    pub required_next_action: PolicyNextAction,
    /// Policy rule identifiers that fired.
    pub rule_ids: Vec<PolicyRuleId>,
    /// Structured threshold findings.
    pub findings: Vec<PolicyFinding>,
}

/// Mathematical model of a [`PolicyEvaluation`] (without the version tag).
pub struct PolicyModel {
    pub decision: PolicyDecision,
    pub reasons: Seq<PolicyReason>,
    pub next_action: PolicyNextAction,
    pub rule_ids: Seq<PolicyRuleId>,
    pub findings: Seq<FindingModel>,
}

impl View for PolicyEvaluation {
    type V = PolicyModel;

    open spec fn view(&self) -> PolicyModel {
        PolicyModel {
            decision: self.decision,
            reasons: self.reasons@,
            next_action: self.required_next_action,
            rule_ids: self.rule_ids@,
            findings: finding_views(self.findings@),
        }
    }
}

pub open spec fn simple_model(
    decision: PolicyDecision,
    reason: PolicyReason,
    next_action: PolicyNextAction,
    rule: PolicyRuleId,
) -> PolicyModel {
    PolicyModel {
        decision,
        reasons: seq![reason],
        next_action,
        rule_ids: seq![rule],
        findings: Seq::empty(),
    }
}

impl PolicyEvaluation {
    /// Build a policy evaluation with the current policy version and no findings.
    pub fn new(
        decision: PolicyDecision,
        reasons: Vec<PolicyReason>,
        required_next_action: PolicyNextAction,
        rule_ids: Vec<PolicyRuleId>,
    ) -> (r: Self)
        ensures
            r.policy_version == M4_POLICY_VERSION,
            r.decision == decision,
            r.reasons@ == reasons@,
            r.required_next_action == required_next_action,
            r.rule_ids@ == rule_ids@,
            r.findings@.len() == 0,
    {
        PolicyEvaluation {
            policy_version: M4_POLICY_VERSION,
            decision,
            reasons,
            required_next_action,
            rule_ids,
            findings: Vec::new(),
        }
    }
}

/// The default next action for each decision.
pub open spec fn default_next_action(decision: PolicyDecision) -> PolicyNextAction {
    match decision {
        PolicyDecision::Allow => PolicyNextAction::NoAction,
        PolicyDecision::Ask => PolicyNextAction::AskUser,
        PolicyDecision::Deny => PolicyNextAction::NoAction,
        PolicyDecision::Unsupported => PolicyNextAction::RetryNarrowerCommand,
        PolicyDecision::InspectionError => PolicyNextAction::InspectOnly,
        PolicyDecision::ExecutionRefused => PolicyNextAction::InspectOnly,
    }
}

/// Return the documented default next action for a decision.
pub fn default_next_action_for_decision(decision: &PolicyDecision) -> (r: PolicyNextAction)
    ensures
        r == default_next_action(*decision),
{
    match decision {
        PolicyDecision::Allow => PolicyNextAction::NoAction,
        PolicyDecision::Ask => PolicyNextAction::AskUser,
        PolicyDecision::Deny => PolicyNextAction::NoAction,
        PolicyDecision::Unsupported => PolicyNextAction::RetryNarrowerCommand,
        PolicyDecision::InspectionError => PolicyNextAction::InspectOnly,
        PolicyDecision::ExecutionRefused => PolicyNextAction::InspectOnly,
    }
}

/// Decision, reason and next action that follow the caller's recommendation.
pub open spec fn caller_outcome(rec: Decision) -> (PolicyDecision, PolicyReason, PolicyNextAction) {
    match rec {
        Decision::Allow => (
            PolicyDecision::Allow,
            PolicyReason::CallerRequestedAllow,
            PolicyNextAction::NoAction,
        ),
        Decision::Ask => (
            PolicyDecision::Ask,
            PolicyReason::CallerRequestedAsk,
            PolicyNextAction::AskUser,
        ),
        Decision::Deny => (
            PolicyDecision::Deny,
            PolicyReason::CallerRequestedDeny,
            PolicyNextAction::NoAction,
        ),
    }
}

/// Policy for a failed or refused resolution reason.
pub open spec fn failed_model(reason: M1Reason) -> PolicyModel {
    match reason {
        M1Reason::IntegrityMismatch => simple_model(
            PolicyDecision::Deny,
            PolicyReason::IntegrityMismatch,
            PolicyNextAction::NoAction,
            PolicyRuleId::IntegrityMismatch,
        ),
        M1Reason::UnsupportedSpec => simple_model(
            PolicyDecision::Unsupported,
            PolicyReason::UnsupportedSpec,
            PolicyNextAction::RetryNarrowerCommand,
            PolicyRuleId::UnsupportedInput,
        ),
        M1Reason::MalformedSpec => simple_model(
            PolicyDecision::Unsupported,
            PolicyReason::MalformedSpec,
            PolicyNextAction::RetryNarrowerCommand,
            PolicyRuleId::MalformedInput,
        ),
        M1Reason::RegistryError => simple_model(
            PolicyDecision::InspectionError,
            PolicyReason::RegistryError,
            PolicyNextAction::InspectOnly,
            PolicyRuleId::InspectionUnavailable,
        ),
        M1Reason::MissingPackage => simple_model(
            PolicyDecision::InspectionError,
            PolicyReason::MissingPackage,
            PolicyNextAction::InspectOnly,
            PolicyRuleId::InspectionUnavailable,
        ),
        M1Reason::MissingVersion => simple_model(
            PolicyDecision::InspectionError,
            PolicyReason::MissingVersion,
            PolicyNextAction::InspectOnly,
            PolicyRuleId::InspectionUnavailable,
        ),
    }
}

/// Recent-publish finding, if the exact version is younger than the threshold.
pub open spec fn recent_publish_finding(reg: RegistryEvidence, now: u64) -> Seq<FindingModel> {
    match reg.publish_time {
        Some(t) => match rfc3339_utc_seconds(t@) {
            Some(published) => {
                let age: int = if published > now {
                    0
                } else {
                    now - published
                };
                if age < M4_RECENT_PUBLISH_WARNING_SECONDS {
                    seq![
                        FindingModel {
                            reason: PolicyReason::RecentPublish,
                            rule_id: PolicyRuleId::RecentPublish,
                            observed: "published_at="@ + t@ + "; age_hours="@ + decimal(
                                (age / 3600) as nat,
                            ),
                            threshold: "<24h"@,
                        },
                    ]
                } else {
                    Seq::empty()
                }
            },
            None => Seq::empty(),
        },
        None => Seq::empty(),
    }
}

/// Size, file-count and lifecycle findings from static extraction evidence.
pub open spec fn static_findings(se: StaticExtractionEvidence) -> Seq<FindingModel> {
    let large = if se.artifact_size_bytes > M4_LARGE_TARBALL_WARNING_BYTES {
        seq![
            FindingModel {
                reason: PolicyReason::LargePackage,
                rule_id: PolicyRuleId::LargePackage,
                observed: decimal(se.artifact_size_bytes as nat) + " bytes"@,
                threshold: "<="@ + decimal(M4_LARGE_TARBALL_WARNING_BYTES as nat) + " bytes"@,
            },
        ]
    } else {
        Seq::empty()
    };
    let files = if se.file_count > M4_LARGE_FILE_COUNT_WARNING {
        seq![
            FindingModel {
                reason: PolicyReason::LargeFileCount,
                rule_id: PolicyRuleId::LargeFileCount,
                observed: decimal(se.file_count as nat) + " files"@,
                threshold: "<="@ + decimal(M4_LARGE_FILE_COUNT_WARNING as nat) + " files"@,
            },
        ]
    } else {
        Seq::empty()
    };
    let scripts = entries_in_key_order(pair_views(se.metadata.lifecycle_scripts@));
    let lifecycle = if scripts.len() > 0 {
        seq![
            FindingModel {
                reason: PolicyReason::LifecycleScriptPresent,
                rule_id: PolicyRuleId::LifecycleScript,
                observed: join(scripts.map_values(|p: (Seq<char>, Seq<char>)| p.0), ", "@),
                threshold: "no lifecycle scripts"@,
            },
        ]
    } else {
        Seq::empty()
    };
    large + files + lifecycle
}

/// All threshold findings for verified evidence at time `now`.
pub open spec fn threshold_findings(
    reg: RegistryEvidence,
    se: Option<StaticExtractionEvidence>,
    now: u64,
) -> Seq<FindingModel> {
    recent_publish_finding(reg, now) + match se {
        Some(s) => static_findings(s),
        None => Seq::empty(),
    }
}

/// Policy for verified evidence: the caller's recommendation, escalated from
/// allow to ask when a threshold finding is present.
pub open spec fn verified_model(rec: Decision, findings: Seq<FindingModel>) -> PolicyModel {
    let (d, r, n) = caller_outcome(rec);
    let escalate = findings.len() > 0 && d == PolicyDecision::Allow;
    PolicyModel {
        decision: if escalate {
            PolicyDecision::Ask
        } else {
            d
        },
        reasons: seq![r] + findings.map_values(|f: FindingModel| f.reason),
        next_action: if escalate {
            PolicyNextAction::AskUser
        } else {
            n
        },
        rule_ids: seq![PolicyRuleId::CallerRecommendation] + findings.map_values(
            |f: FindingModel| f.rule_id,
        ),
        findings,
    }
}

/// The policy for resolution evidence at time `now`.
pub open spec fn m1_policy_model(rec: Decision, m1: M1Evidence, now: u64) -> PolicyModel {
    match m1 {
        M1Evidence::Verified { registry_evidence, static_extraction, .. } => verified_model(
            rec,
            threshold_findings(registry_evidence, static_extraction, now),
        ),
        M1Evidence::NoDownload { reason, .. } => failed_model(reason),
        M1Evidence::Failed { reason, .. } => failed_model(reason),
    }
}

/// Read the current unix time with `std::time::SystemTime::now`, in whole
/// seconds since the epoch (0 for a clock set before it). Nothing is stated
/// of the result: it is the clock's reading at the call.
#[verifier::external_body]
fn current_unix_seconds() -> u64 {
    std::time::SystemTime::now().duration_since(std::time::UNIX_EPOCH).map(|d| d.as_secs()).unwrap_or(0)
}

/// Evaluate resolution evidence at the current time.
pub fn evaluate_m1_policy(recommendation: &Decision, m1: &M1Evidence) -> (r: PolicyEvaluation)
    ensures
        r.policy_version == M4_POLICY_VERSION,
        exists|now: u64| r@ == m1_policy_model(*recommendation, *m1, now),
{
    let now = current_unix_seconds();
    evaluate_m1_policy_at(recommendation, m1, now)
}

/// Evaluate resolution evidence at time `now` (unix seconds).
pub fn evaluate_m1_policy_at(recommendation: &Decision, m1: &M1Evidence, now: u64) -> (r:
    PolicyEvaluation)
    ensures
        r.policy_version == M4_POLICY_VERSION,
        r@ == m1_policy_model(*recommendation, *m1, now),
{
    match m1 {
        M1Evidence::Verified { registry_evidence, static_extraction, .. } => {
            let findings = threshold_findings_exec(registry_evidence, static_extraction, now);
            verified_policy(recommendation, findings)
        },
        M1Evidence::NoDownload { reason, .. } => failed_m1_policy(reason),
        M1Evidence::Failed { reason, .. } => failed_m1_policy(reason),
    }
}

fn verified_policy(recommendation: &Decision, findings: Vec<PolicyFinding>) -> (r: PolicyEvaluation)
    ensures
        r.policy_version == M4_POLICY_VERSION,
        r@ == verified_model(*recommendation, finding_views(findings@)),
{
    let (decision, reason, next_action) = match recommendation {
        Decision::Allow => (
            PolicyDecision::Allow,
            PolicyReason::CallerRequestedAllow,
            PolicyNextAction::NoAction,
        ),
        Decision::Ask => (
            PolicyDecision::Ask,
            PolicyReason::CallerRequestedAsk,
            PolicyNextAction::AskUser,
        ),
        Decision::Deny => (
            PolicyDecision::Deny,
            PolicyReason::CallerRequestedDeny,
            PolicyNextAction::NoAction,
        ),
    };
    let escalate = findings.len() > 0 && decision == PolicyDecision::Allow;
    let mut reasons: Vec<PolicyReason> = Vec::new();
    reasons.push(reason);
    let mut rule_ids: Vec<PolicyRuleId> = Vec::new();
    rule_ids.push(PolicyRuleId::CallerRecommendation);
    let ghost fv = finding_views(findings@);
    let mut i: usize = 0;
    while i < findings.len()
        invariant
            fv == finding_views(findings@),
            i <= findings@.len(),
            reasons@ == seq![reason] + fv.subrange(0, i as int).map_values(
                |f: FindingModel| f.reason,
            ),
            rule_ids@ == seq![PolicyRuleId::CallerRecommendation] + fv.subrange(
                0,
                i as int,
            ).map_values(|f: FindingModel| f.rule_id),
        decreases findings@.len() - i,
    {
        reasons.push(findings[i].reason);
        rule_ids.push(findings[i].rule_id);
        proof {
            assert(fv.subrange(0, i + 1) == fv.subrange(0, i as int).push(fv[i as int]));
        }
        i = i + 1;
    }
    proof {
        assert(fv.subrange(0, fv.len() as int) == fv);
    }
    PolicyEvaluation {
        policy_version: M4_POLICY_VERSION,
        decision: if escalate {
            PolicyDecision::Ask
        } else {
            decision
        },
        reasons,
        required_next_action: if escalate {
            PolicyNextAction::AskUser
        } else {
            next_action
        },
        rule_ids,
        findings,
    }
}

fn push_finding(
    findings: &mut Vec<PolicyFinding>,
    reason: PolicyReason,
    rule_id: PolicyRuleId,
    observed: String,
    threshold: String,
)
    ensures
        finding_views(final(findings)@) == finding_views(old(findings)@).push(
            FindingModel { reason, rule_id, observed: observed@, threshold: threshold@ },
        ),
{
    findings.push(PolicyFinding { reason, rule_id, observed, threshold });
    proof {
        assert(finding_views(findings@) =~= finding_views(old(findings)@).push(
            FindingModel { reason, rule_id, observed: observed@, threshold: threshold@ },
        ));
    }
}

fn threshold_findings_exec(
    reg: &RegistryEvidence,
    se: &Option<StaticExtractionEvidence>,
    now: u64,
) -> (r: Vec<PolicyFinding>)
    ensures
        finding_views(r@) == threshold_findings(*reg, *se, now),
{
    let mut findings: Vec<PolicyFinding> = Vec::new();
    if let Some(t) = &reg.publish_time {
        if let Some(published) = parse_rfc3339_utc_seconds(t.as_str()) {
            let age: u64 = if published > now {
                0
            } else {
                now - published
            };
            if age < M4_RECENT_PUBLISH_WARNING_SECONDS {
                let mut observed = String::new();
                observed.append("published_at=");
                observed.append(t.as_str());
                observed.append("; age_hours=");
                let hours = u64_to_decimal(age / 3600);
                observed.append(hours.as_str());
                push_finding(
                    &mut findings,
                    PolicyReason::RecentPublish,
                    PolicyRuleId::RecentPublish,
                    observed,
                    "<24h".to_owned(),
                );
            }
        }
    }
    assert(finding_views(findings@) == recent_publish_finding(*reg, now));
    if let Some(s) = se {
        let ghost before = finding_views(findings@);
        if s.artifact_size_bytes > M4_LARGE_TARBALL_WARNING_BYTES {
            let mut observed = u64_to_decimal(s.artifact_size_bytes as u64);
            observed.append(" bytes");
            let mut threshold = "<=".to_owned();
            let limit = u64_to_decimal(M4_LARGE_TARBALL_WARNING_BYTES as u64);
            threshold.append(limit.as_str());
            threshold.append(" bytes");
            push_finding(
                &mut findings,
                PolicyReason::LargePackage,
                PolicyRuleId::LargePackage,
                observed,
                threshold,
            );
        }
        if s.file_count > M4_LARGE_FILE_COUNT_WARNING {
            let mut observed = u64_to_decimal(s.file_count as u64);
            observed.append(" files");
            let mut threshold = "<=".to_owned();
            let limit = u64_to_decimal(M4_LARGE_FILE_COUNT_WARNING as u64);
            threshold.append(limit.as_str());
            threshold.append(" files");
            push_finding(
                &mut findings,
                PolicyReason::LargeFileCount,
                PolicyRuleId::LargeFileCount,
                observed,
                threshold,
            );
        }
        let scripts = pairs_in_key_order(&s.metadata.lifecycle_scripts);
        let ghost e = entries_in_key_order(pair_views(s.metadata.lifecycle_scripts@));
        if scripts.len() > 0 {
            let mut names: Vec<String> = Vec::new();
            let mut i: usize = 0;
            while i < scripts.len()
                invariant
                    i <= scripts@.len(),
                    e == pair_views(scripts@),
                    string_views(names@) == e.subrange(0, i as int).map_values(
                        |p: (Seq<char>, Seq<char>)| p.0,
                    ),
                decreases scripts@.len() - i,
            {
                let ghost old_names = names@;
                let name = scripts[i].0.clone();
                assert(name@ == e[i as int].0);
                names.push(name);
                proof {
                    assert(names@ == old_names.push(name));
                    assert(string_views(names@) =~= string_views(old_names).push(name@));
                    assert(e.subrange(0, i + 1) == e.subrange(0, i as int).push(e[i as int]));
                    assert(string_views(names@) =~= e.subrange(0, i + 1).map_values(
                        |p: (Seq<char>, Seq<char>)| p.0,
                    ));
                }
                i = i + 1;
            }
            assert(e.subrange(0, e.len() as int) == e);
            let observed = join_strings(&names, ", ");
            push_finding(
                &mut findings,
                PolicyReason::LifecycleScriptPresent,
                PolicyRuleId::LifecycleScript,
                observed,
                "no lifecycle scripts".to_owned(),
            );
        }
        assert(finding_views(findings@) =~= before + static_findings(*s));
    }
    findings
}

/// Policy for a failed or refused resolution reason.
fn failed_m1_policy(reason: &M1Reason) -> (r: PolicyEvaluation)
    ensures
        r.policy_version == M4_POLICY_VERSION,
        r@ == failed_model(*reason),
{
    let (decision, policy_reason, next_action, rule) = match reason {
        M1Reason::IntegrityMismatch => (
            PolicyDecision::Deny,
            PolicyReason::IntegrityMismatch,
            PolicyNextAction::NoAction,
            PolicyRuleId::IntegrityMismatch,
        ),
        M1Reason::UnsupportedSpec => (
            PolicyDecision::Unsupported,
            PolicyReason::UnsupportedSpec,
            PolicyNextAction::RetryNarrowerCommand,
            PolicyRuleId::UnsupportedInput,
        ),
        M1Reason::MalformedSpec => (
            PolicyDecision::Unsupported,
            PolicyReason::MalformedSpec,
            PolicyNextAction::RetryNarrowerCommand,
            PolicyRuleId::MalformedInput,
        ),
        M1Reason::RegistryError => (
            PolicyDecision::InspectionError,
            PolicyReason::RegistryError,
            PolicyNextAction::InspectOnly,
            PolicyRuleId::InspectionUnavailable,
        ),
        M1Reason::MissingPackage => (
            PolicyDecision::InspectionError,
            PolicyReason::MissingPackage,
            PolicyNextAction::InspectOnly,
            PolicyRuleId::InspectionUnavailable,
        ),
        M1Reason::MissingVersion => (
            PolicyDecision::InspectionError,
            PolicyReason::MissingVersion,
            PolicyNextAction::InspectOnly,
            PolicyRuleId::InspectionUnavailable,
        ),
    };
    let mut reasons: Vec<PolicyReason> = Vec::new();
    reasons.push(policy_reason);
    let mut rule_ids: Vec<PolicyRuleId> = Vec::new();
    rule_ids.push(rule);
    let r = PolicyEvaluation::new(decision, reasons, next_action, rule_ids);
    assert(finding_views(r.findings@) =~= Seq::empty());
    r
}

/// Reasons that refuse execution outright.
pub open spec fn refuses_execution(r: M2Reason) -> bool {
    r == M2Reason::UnsupportedClosure || r == M2Reason::LifecycleScriptPresent || r
        == M2Reason::MetadataChanged || r == M2Reason::CacheIdentityMismatch || r
        == M2Reason::RegistryPrecedenceMismatch || r == M2Reason::ShimIdentityMismatch || r
        == M2Reason::NonInteractiveStop
}

/// Reasons that make bin selection ambiguous or impossible.
pub open spec fn is_bin_ambiguity(r: M2Reason) -> bool {
    r == M2Reason::AmbiguousBin || r == M2Reason::MissingBin
}

/// The most restrictive decision among the closure reasons.
pub open spec fn m2_decision_model(reasons: Seq<M2Reason>) -> PolicyDecision {
    if exists|i: int| 0 <= i < reasons.len() && refuses_execution(#[trigger] reasons[i]) {
        PolicyDecision::ExecutionRefused
    } else if exists|i: int| 0 <= i < reasons.len() && is_bin_ambiguity(#[trigger] reasons[i]) {
        PolicyDecision::Unsupported
    } else {
        PolicyDecision::Ask
    }
}

/// Next action for closure reasons: retry on bin ambiguity, ask on a
/// non-interactive stop, otherwise the decision's default.
pub open spec fn m2_next_action_model(reasons: Seq<M2Reason>) -> PolicyNextAction {
    if reasons.contains(M2Reason::AmbiguousBin) || reasons.contains(M2Reason::MissingBin) {
        PolicyNextAction::RetryNarrowerCommand
    } else if reasons.contains(M2Reason::NonInteractiveStop) {
        PolicyNextAction::AskUser
    } else {
        default_next_action(m2_decision_model(reasons))
    }
}

pub open spec fn m2_reason_policy_reason(r: M2Reason) -> PolicyReason {
    match r {
        M2Reason::InteractiveApprovalRequired => PolicyReason::CallerRequestedAsk,
        M2Reason::AmbiguousBin => PolicyReason::AmbiguousBin,
        M2Reason::MissingBin => PolicyReason::MissingBin,
        M2Reason::LifecycleScriptPresent => PolicyReason::LifecycleScriptPresent,
        M2Reason::UnsupportedClosure => PolicyReason::UnsupportedClosure,
        M2Reason::MetadataChanged => PolicyReason::MetadataChanged,
        M2Reason::CacheIdentityMismatch => PolicyReason::CacheIdentityMismatch,
        M2Reason::RegistryPrecedenceMismatch => PolicyReason::RegistryPrecedenceMismatch,
        M2Reason::ShimIdentityMismatch => PolicyReason::ShimIdentityMismatch,
        M2Reason::NonInteractiveStop => PolicyReason::NonInteractiveStop,
    }
}

pub open spec fn m2_reason_rule(r: M2Reason) -> PolicyRuleId {
    match r {
        M2Reason::InteractiveApprovalRequired => PolicyRuleId::CallerRecommendation,
        M2Reason::AmbiguousBin | M2Reason::MissingBin => PolicyRuleId::ResolverAmbiguity,
        M2Reason::LifecycleScriptPresent => PolicyRuleId::LifecycleScript,
        M2Reason::UnsupportedClosure => PolicyRuleId::UnsupportedClosure,
        M2Reason::MetadataChanged | M2Reason::CacheIdentityMismatch
        | M2Reason::RegistryPrecedenceMismatch | M2Reason::ShimIdentityMismatch => {
            PolicyRuleId::IdentityDrift
        },
        M2Reason::NonInteractiveStop => PolicyRuleId::NonInteractiveStop,
    }
}

/// The policy for a list of closure reasons.
pub open spec fn m2_policy_model(reasons: Seq<M2Reason>) -> PolicyModel {
    PolicyModel {
        decision: m2_decision_model(reasons),
        reasons: reasons.map_values(|r: M2Reason| m2_reason_policy_reason(r)),
        next_action: m2_next_action_model(reasons),
        rule_ids: reasons.map_values(|r: M2Reason| m2_reason_rule(r)),
        findings: Seq::empty(),
    }
}

fn contains_reason(reasons: &[M2Reason], target: M2Reason) -> (r: bool)
    ensures
        r == reasons@.contains(target),
{
    let mut i: usize = 0;
    while i < reasons.len()
        invariant
            i <= reasons@.len(),
            forall|j: int| 0 <= j < i ==> reasons@[j] != target,
        decreases reasons@.len() - i,
    {
        if reasons[i] == target {
            return true;
        }
        i = i + 1;
    }
    false
}

fn m2_policy_decision(reasons: &[M2Reason]) -> (r: PolicyDecision)
    ensures
        r == m2_decision_model(reasons@),
{
    let mut i: usize = 0;
    let mut ambiguous = false;
    while i < reasons.len()
        invariant
            i <= reasons@.len(),
            forall|j: int| 0 <= j < i ==> !refuses_execution(#[trigger] reasons@[j]),
            ambiguous == exists|j: int| 0 <= j < i && is_bin_ambiguity(#[trigger] reasons@[j]),
        decreases reasons@.len() - i,
    {
        let r = reasons[i];
        match r {
            M2Reason::UnsupportedClosure | M2Reason::LifecycleScriptPresent
            | M2Reason::MetadataChanged | M2Reason::CacheIdentityMismatch
            | M2Reason::RegistryPrecedenceMismatch | M2Reason::ShimIdentityMismatch
            | M2Reason::NonInteractiveStop => {
                assert(refuses_execution(reasons@[i as int]));
                return PolicyDecision::ExecutionRefused;
            },
            M2Reason::AmbiguousBin | M2Reason::MissingBin => {
                ambiguous = true;
            },
            M2Reason::InteractiveApprovalRequired => {},
        }
        i = i + 1;
    }
    if ambiguous {
        PolicyDecision::Unsupported
    } else {
        PolicyDecision::Ask
    }
}

fn policy_reason_for_m2_reason(reason: &M2Reason) -> (r: PolicyReason)
    ensures
        r == m2_reason_policy_reason(*reason),
{
    match reason {
        M2Reason::InteractiveApprovalRequired => PolicyReason::CallerRequestedAsk,
        M2Reason::AmbiguousBin => PolicyReason::AmbiguousBin,
        M2Reason::MissingBin => PolicyReason::MissingBin,
        M2Reason::LifecycleScriptPresent => PolicyReason::LifecycleScriptPresent,
        M2Reason::UnsupportedClosure => PolicyReason::UnsupportedClosure,
        M2Reason::MetadataChanged => PolicyReason::MetadataChanged,
        M2Reason::CacheIdentityMismatch => PolicyReason::CacheIdentityMismatch,
        M2Reason::RegistryPrecedenceMismatch => PolicyReason::RegistryPrecedenceMismatch,
        M2Reason::ShimIdentityMismatch => PolicyReason::ShimIdentityMismatch,
        M2Reason::NonInteractiveStop => PolicyReason::NonInteractiveStop,
    }
}

fn policy_rule_for_m2_reason(reason: &M2Reason) -> (r: PolicyRuleId)
    ensures
        r == m2_reason_rule(*reason),
{
    match reason {
        M2Reason::InteractiveApprovalRequired => PolicyRuleId::CallerRecommendation,
        M2Reason::AmbiguousBin | M2Reason::MissingBin => PolicyRuleId::ResolverAmbiguity,
        M2Reason::LifecycleScriptPresent => PolicyRuleId::LifecycleScript,
        M2Reason::UnsupportedClosure => PolicyRuleId::UnsupportedClosure,
        M2Reason::MetadataChanged | M2Reason::CacheIdentityMismatch
        | M2Reason::RegistryPrecedenceMismatch | M2Reason::ShimIdentityMismatch => {
            PolicyRuleId::IdentityDrift
        },
        M2Reason::NonInteractiveStop => PolicyRuleId::NonInteractiveStop,
    }
}

/// Evaluate execution-closure reasons into the canonical policy result.
pub fn evaluate_m2_policy(reasons: &[M2Reason]) -> (r: PolicyEvaluation)
    ensures
        r.policy_version == M4_POLICY_VERSION,
        r@ == m2_policy_model(reasons@),
{
    let decision = m2_policy_decision(reasons);
    let next_action = if contains_reason(reasons, M2Reason::AmbiguousBin) || contains_reason(
        reasons,
        M2Reason::MissingBin,
    ) {
        PolicyNextAction::RetryNarrowerCommand
    } else if contains_reason(reasons, M2Reason::NonInteractiveStop) {
        PolicyNextAction::AskUser
    } else {
        default_next_action_for_decision(&decision)
    };
    let mut policy_reasons: Vec<PolicyReason> = Vec::new();
    let mut rule_ids: Vec<PolicyRuleId> = Vec::new();
    let mut i: usize = 0;
    while i < reasons.len()
        invariant
            i <= reasons@.len(),
            policy_reasons@ == reasons@.subrange(0, i as int).map_values(
                |r: M2Reason| m2_reason_policy_reason(r),
            ),
            rule_ids@ == reasons@.subrange(0, i as int).map_values(|r: M2Reason| m2_reason_rule(r)),
        decreases reasons@.len() - i,
    {
        policy_reasons.push(policy_reason_for_m2_reason(&reasons[i]));
        rule_ids.push(policy_rule_for_m2_reason(&reasons[i]));
        proof {
            assert(reasons@.subrange(0, i + 1) == reasons@.subrange(0, i as int).push(
                reasons@[i as int],
            ));
        }
        i = i + 1;
    }
    proof {
        assert(reasons@.subrange(0, reasons@.len() as int) == reasons@);
    }
    let r = PolicyEvaluation::new(decision, policy_reasons, next_action, rule_ids);
    assert(finding_views(r.findings@) =~= Seq::empty());
    r
}

/// Process exit code: success.
pub const M4_SUCCESS_EXIT_CODE: i32 = 0;
/// Process exit code: unsupported input or command shape.
pub const M4_UNSUPPORTED_EXIT_CODE: i32 = 2;
/// Process exit code: evidence could not be collected.
pub const M4_INSPECTION_ERROR_EXIT_CODE: i32 = 3;
/// Process exit code: denied.
pub const M4_DENIED_EXIT_CODE: i32 = 4;
/// Process exit code: execution closure could not be proven.
pub const M4_EXECUTION_REFUSED_EXIT_CODE: i32 = 14;
/// Process exit code of an execution-refusal report; the same code as
/// `M4_EXECUTION_REFUSED_EXIT_CODE`.
pub const M2_EXECUTION_REFUSED_EXIT_CODE: i32 = 14;
/// Process exit code: a human decision is required but no prompt is possible.
pub const M4_ASK_REQUIRED_EXIT_CODE: i32 = 6;
/// Process exit code: delegated package execution failed.
pub const M4_DELEGATED_EXECUTION_FAILED_EXIT_CODE: i32 = 15;

/// Exit code of each decision when no prompt is blocked: 0 for allow and
/// ask, 4 denied, 2 unsupported, 3 inspection error, 14 execution refused.
pub open spec fn decision_exit_code(decision: PolicyDecision) -> i32 {
    match decision {
        PolicyDecision::Allow => 0,
        PolicyDecision::Ask => 0,
        PolicyDecision::Deny => 4,
        PolicyDecision::Unsupported => 2,
        PolicyDecision::InspectionError => 3,
        PolicyDecision::ExecutionRefused => 14,
    }
}

/// Return the process exit code for a policy decision.
pub fn exit_code_for_policy_decision(decision: &PolicyDecision) -> (r: i32)
    ensures
        r == decision_exit_code(*decision),
{
    match decision {
        PolicyDecision::Allow => M4_SUCCESS_EXIT_CODE,
        PolicyDecision::Ask => M4_SUCCESS_EXIT_CODE,
        PolicyDecision::Deny => M4_DENIED_EXIT_CODE,
        PolicyDecision::Unsupported => M4_UNSUPPORTED_EXIT_CODE,
        PolicyDecision::InspectionError => M4_INSPECTION_ERROR_EXIT_CODE,
        PolicyDecision::ExecutionRefused => M4_EXECUTION_REFUSED_EXIT_CODE,
    }
}

/// Restrictiveness of a decision: allow < ask < the refusing decisions.
pub open spec fn restrictiveness(d: PolicyDecision) -> int {
    match d {
        PolicyDecision::Allow => 0,
        PolicyDecision::Ask => 1,
        _ => 2,
    }
}

/// Threshold findings never weaken the caller's recommendation: for verified
/// evidence the decision is at least as restrictive as the caller asked, an
/// explicit deny stays a deny, and an allow with any finding becomes an ask.
pub proof fn law_thresholds_never_weaken_caller(rec: Decision, m1: M1Evidence, now: u64)
    requires
        m1 is Verified,
    ensures
        restrictiveness(m1_policy_model(rec, m1, now).decision) >= restrictiveness(
            caller_outcome(rec).0,
        ),
        rec == Decision::Deny ==> m1_policy_model(rec, m1, now).decision == PolicyDecision::Deny,
        rec == Decision::Ask ==> m1_policy_model(rec, m1, now).decision == PolicyDecision::Ask,
        m1_policy_model(rec, m1, now).findings.len() > 0 ==> m1_policy_model(rec, m1, now).decision
            != PolicyDecision::Allow,
        m1_policy_model(rec, m1, now).reasons[0] == caller_outcome(rec).1,
        m1_policy_model(rec, m1, now).reasons.len() == m1_policy_model(rec, m1, now).findings.len()
            + 1,
{
}

/// A single closure reason yields exactly the decision that reason implies
/// on its own.
pub proof fn law_single_reason_decision(reason: M2Reason)
    ensures
        m2_decision_model(seq![reason]) == match reason.decision_model() {
            crate::closure::ClosureDecision::Ask => PolicyDecision::Ask,
            crate::closure::ClosureDecision::Unsupported => PolicyDecision::Unsupported,
            _ => PolicyDecision::ExecutionRefused,
        },
{
    let s = seq![reason];
    if refuses_execution(reason) {
        assert(refuses_execution(s[0]));
    } else if is_bin_ambiguity(reason) {
        assert(is_bin_ambiguity(s[0]));
    }
}

/// Every decision's next action is its default unless a bin-ambiguity or a
/// non-interactive stop asks for a specific one.
pub proof fn law_m2_next_action_defaults(reasons: Seq<M2Reason>)
    requires
        !reasons.contains(M2Reason::AmbiguousBin),
        !reasons.contains(M2Reason::MissingBin),
        !reasons.contains(M2Reason::NonInteractiveStop),
    ensures
        m2_policy_model(reasons).next_action == default_next_action(m2_decision_model(reasons)),
{
}

} // verus!
