//! Inspect decision receipt: a non-authoritative summary of what an inspect
//! report decided, with identity fields kept apart from redacted display.

use vstd::prelude::*;
use crate::contracts::{clone_opt_string, ArtifactIdentity, PackageSpecParse};
use crate::inspect_json_schema::{InspectJsonDecision, InspectJsonNextAction};
use crate::inspect_model::InspectExecutionStateKind;
use crate::redaction::{redact_report_value, redact_report_values, redacted, redacted_args};
use crate::report::Report;
use crate::text::string_views;

verus! {

/// Inspect decision receipt.
#[derive(Clone, Debug, PartialEq, Eq)]
pub struct InspectDecisionReceipt {
    /// Receipt format version.
    pub receipt_version: &'static str,
    /// Inspect JSON schema version.
    pub schema_version: &'static str,
    /// Inspect policy version.
    pub policy_version: &'static str,
    /// Issue time; not recorded.
    pub issued_at: Option<String>,
    /// Reminder that a receipt is no approval cache entry.
    pub cache_status: &'static str,
    /// Verified artifact identity, when known.
    pub artifact: Option<ReceiptArtifactIdentity>,
    /// Command identity.
    pub command: ReceiptCommandIdentity,
    /// Summary of the decision evidence.
    pub evidence_summary: ReceiptEvidenceSummary,
    /// Redaction and identity metadata.
    pub redaction: ReceiptRedactionMetadata,
}

/// Artifact identity of a receipt.
#[derive(Clone, Debug, PartialEq, Eq)]
pub struct ReceiptArtifactIdentity {
    /// Package name.
    pub name: String,
    /// Package version.
    pub version: String,
    /// Integrity metadata.
    pub integrity: String,
    /// Digest algorithm.
    pub digest_algorithm: String,
    /// Digest of the verified bytes.
    pub digest: String,
}

/// Command identity of a receipt, apart from redacted display values.
#[derive(Clone, Debug, PartialEq, Eq)]
pub struct ReceiptCommandIdentity {
    /// Digest key of the redacted command intent.
    pub identity_key: String,
    /// `supported`, `unsupported` or `malformed`.
    pub package_state: &'static str,
    /// Package name of a supported spec.
    pub package_name: Option<String>,
    /// Package version of a supported spec.
    pub package_version: Option<String>,
    /// Number of forwarded arguments.
    pub forwarded_args_count: usize,
    /// Redacted requested spec.
    pub requested_display: String,
    /// Redacted forwarded arguments.
    pub forwarded_args_display: Vec<String>,
}

/// Evidence summary of a receipt.
#[derive(Clone, Debug, PartialEq, Eq)]
pub struct ReceiptEvidenceSummary {
    /// JSON decision.
    pub decision: InspectJsonDecision,
    /// JSON next action.
    pub required_next_action: InspectJsonNextAction,
    /// Inspect decision reasons.
    pub reasons: Vec<String>,
    /// Process exit code.
    pub exit_code: i32,
    /// Execution state.
    pub execution_state: InspectExecutionStateKind,
    /// Whether package code ran.
    pub package_code_executed: bool,
    /// Number of heuristics.
    pub heuristics_count: usize,
}

/// Redaction and identity metadata of a receipt.
#[derive(Clone, Debug, PartialEq, Eq)]
pub struct ReceiptRedactionMetadata {
    /// Redaction applied to display values.
    pub display_redaction: &'static str,
    /// Status of the authority identity fields.
    pub authority_identity_status: &'static str,
    /// Digest key of the redacted command intent.
    pub command_intent_key: String,
    /// Current-directory trust class.
    pub cwd_trust_class: String,
    /// Registry identity key, when a registry is known.
    pub registry_key: Option<String>,
    /// Reminder of what a receipt is not.
    pub boundary: &'static str,
}

/// Receipt format version.
pub const RECEIPT_VERSION: &'static str = "m3-inspect-receipt-v0";
/// Inspect policy version named by receipts.
pub const RECEIPT_POLICY_VERSION: &'static str = "m3-inspect-policy-v0";
/// Cache status of every receipt.
pub const RECEIPT_CACHE_STATUS: &'static str = "not_an_approval_cache";
/// Display redaction named by receipts.
pub const RECEIPT_DISPLAY_REDACTION: &'static str = "redacted_report_v0";
/// Boundary of every receipt.
pub const RECEIPT_BOUNDARY: &'static str =
    "receipt is inspect evidence only; M3 does not define approval-cache semantics";

/// Package state name of a parsed spec.
pub open spec fn package_state_text(p: PackageSpecParse) -> Seq<char> {
    match p {
        PackageSpecParse::Supported(_) => "supported"@,
        PackageSpecParse::Unsupported(_) => "unsupported"@,
        PackageSpecParse::Malformed(_) => "malformed"@,
    }
}

/// The receipt's artifact matches the report's verified artifact.
pub open spec fn artifact_matches(r: Option<ReceiptArtifactIdentity>, a: Option<ArtifactIdentity>) -> bool {
    match (r, a) {
        (Some(x), Some(y)) => x.name == y.name && x.version == y.version && x.integrity
            == y.integrity && x.digest_algorithm == y.digest_algorithm && x.digest == y.digest,
        (None, None) => true,
        _ => false,
    }
}

/// Everything a receipt states for a report, its JSON decision and next
/// action, and its exit code.
pub open spec fn receipt_holds(
    r: InspectDecisionReceipt,
    report: Report,
    decision: InspectJsonDecision,
    required_next_action: InspectJsonNextAction,
    exit_code: i32,
    home: Option<Seq<char>>,
) -> bool {
    let auth = report.inspect.authority_context.redacted;
    let intent = report.intent;
    &&& r.receipt_version@ == RECEIPT_VERSION@
    &&& r.schema_version@ == "0.1"@
    &&& r.policy_version@ == RECEIPT_POLICY_VERSION@
    &&& r.issued_at is None
    &&& r.cache_status@ == RECEIPT_CACHE_STATUS@
    &&& artifact_matches(r.artifact, report.inspect.facts.artifact)
    &&& r.command.identity_key == auth.identity.command_intent_key
    &&& r.command.package_state@ == package_state_text(intent.package_spec)
    &&& r.command.package_name == match intent.package_spec {
        PackageSpecParse::Supported(p) => Some(p.name),
        _ => None,
    }
    &&& r.command.package_version == match intent.package_spec {
        PackageSpecParse::Supported(p) => Some(p.version),
        _ => None,
    }
    &&& r.command.forwarded_args_count == intent.forwarded_args@.len()
    &&& r.command.requested_display@ == redacted(intent.requested@, home)
    &&& string_views(r.command.forwarded_args_display@) == redacted_args(
        string_views(intent.forwarded_args@),
        home,
        false,
    )
    &&& r.evidence_summary.decision == decision
    &&& r.evidence_summary.required_next_action == required_next_action
    &&& r.evidence_summary.reasons@ == report.inspect.decision.reasons@
    &&& r.evidence_summary.exit_code == exit_code
    &&& r.evidence_summary.execution_state == report.inspect.execution_state.state
    &&& r.evidence_summary.package_code_executed == report.inspect.execution_state.package_code_executed
    &&& r.evidence_summary.heuristics_count == report.inspect.heuristics@.len()
    &&& r.redaction.display_redaction@ == RECEIPT_DISPLAY_REDACTION@
    &&& r.redaction.authority_identity_status == auth.identity.status
    &&& r.redaction.command_intent_key == auth.identity.command_intent_key
    &&& r.redaction.cwd_trust_class == auth.identity.cwd_trust_class
    &&& r.redaction.registry_key == auth.identity.registry_key
    &&& r.redaction.boundary@ == RECEIPT_BOUNDARY@
}

fn receipt_artifact_identity(a: &ArtifactIdentity) -> (r: ReceiptArtifactIdentity)
    ensures
        artifact_matches(Some(r), Some(*a)),
{
    ReceiptArtifactIdentity {
        name: a.name.clone(),
        version: a.version.clone(),
        integrity: a.integrity.clone(),
        digest_algorithm: a.digest_algorithm.clone(),
        digest: a.digest.clone(),
    }
}

fn clone_strings(v: &Vec<String>) -> (r: Vec<String>)
    ensures
        r@ == v@,
{
    crate::contracts::clone_string_vec(v)
}

/// Build the receipt of a report; the command's displays are redacted
/// against the home directory `home`, when one is known.
pub fn build_inspect_decision_receipt(
    report: &Report,
    decision: InspectJsonDecision,
    required_next_action: InspectJsonNextAction,
    exit_code: i32,
    home: Option<&str>,
) -> (r: InspectDecisionReceipt)
    ensures
        receipt_holds(r, *report, decision, required_next_action, exit_code, crate::redaction::opt_view(home)),
{
    let authority = &report.inspect.authority_context.redacted;
    let artifact = match &report.inspect.facts.artifact {
        Some(a) => Some(receipt_artifact_identity(a)),
        None => None,
    };
    let (package_state, package_name, package_version) = match &report.intent.package_spec {
        PackageSpecParse::Supported(p) => ("supported", Some(p.name.clone()), Some(p.version.clone())),
        PackageSpecParse::Unsupported(_) => ("unsupported", None, None),
        PackageSpecParse::Malformed(_) => ("malformed", None, None),
    };
    let command = ReceiptCommandIdentity {
        identity_key: authority.identity.command_intent_key.clone(),
        package_state,
        package_name,
        package_version,
        forwarded_args_count: report.intent.forwarded_args.len(),
        requested_display: redact_report_value(report.intent.requested.as_str(), home),
        forwarded_args_display: redact_report_values(report.intent.forwarded_args.as_slice(), home),
    };
    let evidence_summary = ReceiptEvidenceSummary {
        decision,
        required_next_action,
        reasons: clone_strings(&report.inspect.decision.reasons),
        exit_code,
        execution_state: report.inspect.execution_state.state,
        package_code_executed: report.inspect.execution_state.package_code_executed,
        heuristics_count: report.inspect.heuristics.len(),
    };
    let redaction = ReceiptRedactionMetadata {
        display_redaction: RECEIPT_DISPLAY_REDACTION,
        authority_identity_status: authority.identity.status,
        command_intent_key: authority.identity.command_intent_key.clone(),
        cwd_trust_class: authority.identity.cwd_trust_class.clone(),
        registry_key: clone_opt_string(&authority.identity.registry_key),
        boundary: RECEIPT_BOUNDARY,
    };
    InspectDecisionReceipt {
        receipt_version: RECEIPT_VERSION,
        schema_version: "0.1",
        policy_version: RECEIPT_POLICY_VERSION,
        issued_at: None,
        cache_status: RECEIPT_CACHE_STATUS,
        artifact,
        command,
        evidence_summary,
        redaction,
    }
}

} // verus!
