//! The inspection report: what was requested, how it parsed, the
//! recommendation, and the resolution evidence; rendered as text for humans
//! or as JSON for agents. Rendering redacts displayed values against the
//! caller's home directory, passed in as `home` where one is known.

use vstd::prelude::*;
use crate::authority_context::AmbientPaths;
use crate::cli::{
    forwarded_args_model, inspect_action, raw_package_spec_model, refusal_reason_model,
    source_context_model, tokens, Cli,
};
use crate::inspect_model::{build_inspect_model, inspect_holds, InspectModel};
use crate::redaction::{redact_report_value, redact_report_values, redacted, redacted_args};
use crate::report_inspect::{render_model_summary, summary_text};
use crate::closure::{ClosureCommandIdentity, ClosureDecision, M2Reason};
use crate::contracts::{CommandIntent, Decision, M1Reason, PackageSpecParse, SourceContext};
use crate::download::TarballTransport;
use crate::evidence::{M1Evidence, StaticExtractionEvidence};
use crate::extraction::{extract_for_inspect, extraction_model, static_extraction_text, render_static_extraction};
use crate::json_out::{pretty, push_member, to_pretty_json, view_members, JsonOut, JsonV};
use crate::m2_report::{
    build_m2_execution_refusal_report, m2_refusal_json, refusal_json, refusal_report_holds,
    refusal_text, render_m2_execution_refusal_text, M2ExecutionRefusalReport,
};
use crate::parser::{classify_model, parse_command_intent};
use crate::registry::RegistryTransport;
use crate::report_json::{
    opt_view,
    category_name, category_text, decision_name, decision_text, identity_json,
    identity_json_model, intent_json, intent_json_model, m1_reason_name, m1_reason_text,
    registry_evidence_json, registry_evidence_json_model, resolved_json, resolved_json_model,
    static_json, static_json_model,
};
use crate::resolver::{
    RootArtifactResolutionError, RootArtifactResolver, VerifiedRootArtifact,
};
use crate::text::{concat2, join, join_strings, string_views};
use crate::inspect_json::{
    receipt_artifact_json_model, receipt_json_model, authority_json, authority_json_model, facts_json, facts_json_model, heuristics_json,
    heuristics_json_model, inspect_json, inspect_json_model, receipt_json,
};
use crate::inspect_json_schema::{
    inspect_json_decision_for_policy, inspect_json_next_action_for_policy, json_decision_name,
    json_decision_of, json_decision_text, json_next_action_name, json_next_action_of,
    json_next_action_text, policy_json, policy_json_model, policy_reason_names, policy_reason_texts,
    InspectJsonDecision,
    InspectJsonNextAction, INSPECT_JSON_SCHEMA_VERSION,
};
use crate::inspect_model::{heuristic_views, InspectExecutionStateKind};
use crate::inspect_receipt::{
    build_inspect_decision_receipt, package_state_text, RECEIPT_BOUNDARY, RECEIPT_CACHE_STATUS,
    RECEIPT_DISPLAY_REDACTION, RECEIPT_POLICY_VERSION, RECEIPT_VERSION,
};
use crate::json_out::{json_str_array, opt_str_json, str_values};
use crate::numbers::{decimal, i32_text, i32_to_decimal};
use crate::policy::{
    decision_exit_code, evaluate_m1_policy, exit_code_for_policy_decision, m1_policy_model,
    PolicyDecision, PolicyEvaluation, PolicyModel, M4_ASK_REQUIRED_EXIT_CODE, M4_POLICY_VERSION,
};
use crate::report_inspect::{execution_state_text, reasons_text, source_context_name, source_context_text};

verus! {

/// Output of one command run and its process status.
#[derive(Clone, Debug, PartialEq, Eq)]
pub struct CliRunOutput {
    /// Text that should be written to stdout.
    pub stdout: String,
    /// Process exit code that should be returned by the binary.
    pub exit_code: i32,
}

/// Inspection report emitted for humans and agents.
#[derive(Clone, Debug, PartialEq, Eq)]
pub struct Report {
    /// Package spec requested by the caller.
    pub package_spec: String,
    /// Parsed command intent before registry or artifact access.
    pub intent: CommandIntent,
    /// Current recommendation.
    pub recommendation: Decision,
    /// Which pipeline produced the report.
    pub status: &'static str,
    /// Human-readable note explaining the current boundary.
    pub note: &'static str,
    /// Shared inspect model behind both renderings.
    pub inspect: InspectModel,
    /// Resolver and artifact evidence.
    pub m1: M1Evidence,
}

/// Note for a plain resolution report.
pub open spec fn resolution_note() -> Seq<char> {
    "M1 resolves and verifies the root artifact only; dependency graphs, lifecycle scripts, maintainer reputation, and policy scoring are not implemented yet."@
}

/// Note for an inspect report.
pub open spec fn inspect_note() -> Seq<char> {
    "M3 inspect resolves, verifies, statically extracts package metadata, and stops before package code can run."@
}

/// The report's recommendation and evidence for the intent and, for a
/// supported spec, the resolution outcome.
pub open spec fn evidence_holds(
    r: Report,
    cli: Cli,
    outcome: Option<Result<VerifiedRootArtifact, RootArtifactResolutionError>>,
) -> bool {
    match r.intent.package_spec {
        PackageSpecParse::Unsupported(u) => r.recommendation == Decision::Deny && r.m1
            == M1Evidence::NoDownload { reason: u.reason, downloaded: u.downloaded },
        PackageSpecParse::Malformed(m) => r.recommendation == Decision::Deny && r.m1
            == M1Evidence::NoDownload { reason: m.reason, downloaded: m.downloaded },
        PackageSpecParse::Supported(_) => match outcome {
            None => false,
            Some(Err(e)) => r.recommendation == (match e.decision {
                Some(d) => d,
                None => Decision::Ask,
            }) && r.m1 == M1Evidence::Failed {
                reason: e.reason,
                downloaded: e.reason == M1Reason::IntegrityMismatch,
                detail: e.detail,
            },
            Some(Ok(v)) => if !inspect_action(tokens(cli)) {
                r.recommendation == cli.decision && r.m1 == M1Evidence::Verified {
                    resolved_package: v.resolved_package,
                    integrity_status: "verified",
                    artifact_identity: v.artifact_identity,
                    registry_evidence: v.registry_evidence,
                    static_extraction: None,
                }
            } else {
                match extraction_model(v.artifact_bytes@) {
                    Err((_, d)) => r.recommendation == Decision::Ask && (r.m1 matches M1Evidence::Failed {
                        reason,
                        downloaded,
                        detail,
                    } && reason == M1Reason::RegistryError && downloaded && detail@
                        == "static extraction failed: "@ + d),
                    Ok((meta, count)) => r.recommendation == cli.decision && (r.m1 matches M1Evidence::Verified {
                        resolved_package,
                        integrity_status,
                        artifact_identity,
                        registry_evidence,
                        static_extraction: Some(se),
                    } && resolved_package == v.resolved_package && integrity_status@ == "verified"@
                        && artifact_identity == v.artifact_identity && registry_evidence
                        == v.registry_evidence && se.metadata@ == meta && se.file_count == count
                        && se.artifact_size_bytes == v.artifact_bytes@.len() && se.status@
                        == "extracted"@),
                }
            },
        },
    }
}

/// Everything a report states for a command line and resolution outcome.
pub open spec fn report_holds(
    r: Report,
    cli: Cli,
    outcome: Option<Result<VerifiedRootArtifact, RootArtifactResolutionError>>,
    ambient: AmbientPaths,
) -> bool {
    let cmd = tokens(cli);
    &&& source_context_model(cli) matches Some(sc) && inspect_holds(
        r.inspect,
        r.intent,
        r.recommendation,
        r.m1,
        sc,
        ambient,
    )
    &&& r.package_spec@ == raw_package_spec_model(cmd)
    &&& r.intent.package_spec@ == classify_model(raw_package_spec_model(cmd))
    &&& r.intent.package_spec.well_formed()
    &&& (r.intent.package_spec is Supported ==> string_views(r.intent.forwarded_args@)
        == forwarded_args_model(cmd))
    &&& (!(r.intent.package_spec is Supported) ==> r.intent.forwarded_args@.len() == 0)
    &&& r.status@ == (if inspect_action(cmd) {
        "m3_inspect"@
    } else {
        "m1_evidence"@
    })
    &&& r.note@ == (if inspect_action(cmd) {
        inspect_note()
    } else {
        resolution_note()
    })
    &&& evidence_holds(r, cli, outcome)
}

/// Build the report from a command line and, for a supported spec, the
/// resolution outcome it was resolved to.
pub fn report_from_outcome(
    cli: &Cli,
    intent: CommandIntent,
    raw_package_spec: String,
    outcome: Option<Result<VerifiedRootArtifact, RootArtifactResolutionError>>,
    source_context: SourceContext,
    ambient: &AmbientPaths,
) -> (r: Report)
    requires
        source_context_model(*cli) == Some(source_context),
        raw_package_spec@ == raw_package_spec_model(tokens(*cli)),
        intent.package_spec@ == classify_model(raw_package_spec_model(tokens(*cli))),
        intent.package_spec.well_formed(),
        intent.package_spec is Supported ==> string_views(intent.forwarded_args@)
            == forwarded_args_model(tokens(*cli)),
        !(intent.package_spec is Supported) ==> intent.forwarded_args@.len() == 0,
        intent.package_spec is Supported <==> outcome is Some,
    ensures
        report_holds(r, *cli, outcome, *ambient),
{
    let inspect = cli.is_inspect_action();
    let (recommendation, m1) = match &intent.package_spec {
        PackageSpecParse::Unsupported(u) => (
            Decision::Deny,
            M1Evidence::NoDownload { reason: u.reason, downloaded: u.downloaded },
        ),
        PackageSpecParse::Malformed(m) => (
            Decision::Deny,
            M1Evidence::NoDownload { reason: m.reason, downloaded: m.downloaded },
        ),
        PackageSpecParse::Supported(_) => match outcome {
            None => (Decision::Deny, M1Evidence::NoDownload { reason: M1Reason::UnsupportedSpec, downloaded: false }),
            Some(Err(e)) => {
                let downloaded = e.reason == M1Reason::IntegrityMismatch;
                let decision = match e.decision {
                    Some(d) => d,
                    None => Decision::Ask,
                };
                (decision, M1Evidence::Failed { reason: e.reason, downloaded, detail: e.detail })
            },
            Some(Ok(v)) => {
                if inspect {
                    match extract_for_inspect(v.artifact_bytes.as_slice(), &v.artifact_identity) {
                        Ok(se) => (
                            cli.decision,
                            M1Evidence::Verified {
                                resolved_package: v.resolved_package,
                                integrity_status: "verified",
                                artifact_identity: v.artifact_identity,
                                registry_evidence: v.registry_evidence,
                                static_extraction: Some(se),
                            },
                        ),
                        Err(x) => (
                            Decision::Ask,
                            M1Evidence::Failed {
                                reason: M1Reason::RegistryError,
                                downloaded: true,
                                detail: concat2("static extraction failed: ", x.detail.as_str()),
                            },
                        ),
                    }
                } else {
                    (
                        cli.decision,
                        M1Evidence::Verified {
                            resolved_package: v.resolved_package,
                            integrity_status: "verified",
                            artifact_identity: v.artifact_identity,
                            registry_evidence: v.registry_evidence,
                            static_extraction: None,
                        },
                    )
                }
            },
        },
    };
    let status = if inspect {
        "m3_inspect"
    } else {
        "m1_evidence"
    };
    let note = if inspect {
        "M3 inspect resolves, verifies, statically extracts package metadata, and stops before package code can run."
    } else {
        "M1 resolves and verifies the root artifact only; dependency graphs, lifecycle scripts, maintainer reputation, and policy scoring are not implemented yet."
    };
    let model = build_inspect_model(&intent, recommendation, &m1, source_context, ambient);
    Report { package_spec: raw_package_spec, intent, recommendation, status, note, inspect: model, m1 }
}

/// Build a report from parsed command-line arguments and a resolver; only a
/// supported spec reaches the resolver.
pub fn build_report_with_resolver<M: RegistryTransport, D: TarballTransport>(
    cli: &Cli,
    resolver: &RootArtifactResolver<M, D>,
    ambient: &AmbientPaths,
) -> (r: Report)
    requires
        source_context_model(*cli) is Some,
    ensures
        exists|outcome: Option<Result<VerifiedRootArtifact, RootArtifactResolutionError>>|
            #[trigger] report_holds(r, *cli, outcome, *ambient) && match outcome {
                None => true,
                Some(res) => r.intent.package_spec matches PackageSpecParse::Supported(spec)
                    && resolver.explains(spec@, res),
            },
{
    let raw_package_spec = cli.raw_package_spec();
    let forwarded = cli.forwarded_args();
    let intent = parse_command_intent(raw_package_spec.as_str(), forwarded);
    let outcome = match &intent.package_spec {
        PackageSpecParse::Supported(package_spec) => Some(resolver.resolve(package_spec)),
        _ => None,
    };
    let source_context = match cli.source_context_choice() {
        Ok(sc) => sc,
        Err(_) => SourceContext::Unknown,
    };
    let r = report_from_outcome(cli, intent, raw_package_spec, outcome, source_context, ambient);
    assert(report_holds(r, *cli, outcome, *ambient));
    r
}

/// Debug name of a caller decision, as the human report shows it.
pub open spec fn decision_debug(d: Decision) -> Seq<char> {
    match d {
        Decision::Allow => "Allow"@,
        Decision::Ask => "Ask"@,
        Decision::Deny => "Deny"@,
    }
}

fn decision_debug_name(d: &Decision) -> (r: &'static str)
    ensures
        r@ == decision_debug(*d),
{
    match d {
        Decision::Allow => "Allow",
        Decision::Ask => "Ask",
        Decision::Deny => "Deny",
    }
}

/// Forwarded arguments for humans: `[]` when there are none.
pub open spec fn forwarded_text(args: Seq<Seq<char>>) -> Seq<char> {
    if args.len() == 0 {
        "[]"@
    } else {
        join(args, " "@)
    }
}

/// Human lines for a parsed command intent.
pub open spec fn command_intent_text(i: CommandIntent, home: Option<Seq<char>>) -> Seq<char> {
    match i.package_spec {
        PackageSpecParse::Supported(p) => "Parsed: "@ + p.name@ + "@"@ + p.version@
            + "\nForwarded args: "@ + forwarded_text(
            redacted_args(string_views(i.forwarded_args@), home, false),
        ) + "\n"@,
        PackageSpecParse::Unsupported(u) => "Rejected: "@ + redacted(i.requested@, home) + "\nReason: "@
            + m1_reason_text(u.reason) + "\nCategory: "@ + category_text(u.category)
            + "\nDownloaded: "@ + bool_text(u.downloaded) + "\n"@,
        PackageSpecParse::Malformed(m) => "Rejected: "@ + redacted(i.requested@, home) + "\nReason: "@
            + m1_reason_text(m.reason) + "\nDownloaded: "@ + bool_text(m.downloaded) + "\n"@,
    }
}

/// Human lines for the parsed intent of a report.
pub open spec fn intent_text(r: Report, home: Option<Seq<char>>) -> Seq<char> {
    command_intent_text(r.intent, home)
}

pub open spec fn bool_text(b: bool) -> Seq<char> {
    if b {
        "true"@
    } else {
        "false"@
    }
}

pub(crate) fn bool_name(b: bool) -> (r: &'static str)
    ensures
        r@ == bool_text(b),
{
    if b {
        "true"
    } else {
        "false"
    }
}

/// Human lines for the resolution evidence.
pub open spec fn evidence_text(m: M1Evidence, home: Option<Seq<char>>) -> Seq<char> {
    match m {
        M1Evidence::NoDownload { reason, downloaded } => "M1 evidence: no_download\nReason: "@
            + m1_reason_text(reason) + "\nDownloaded: "@ + bool_text(downloaded) + "\n"@,
        M1Evidence::Verified {
            resolved_package,
            integrity_status,
            artifact_identity,
            static_extraction,
            ..
        } => "M1 evidence: verified\nResolved: "@ + resolved_package.name@ + "@"@
            + resolved_package.version@ + "\nRegistry: "@ + redacted(resolved_package.registry.url@, home)
            + "\nTarball: "@ + redacted(resolved_package.tarball_url@, home) + "\nIntegrity: "@
            + integrity_status@ + "\nIntegrity metadata: "@ + resolved_package.integrity@
            + "\nDigest: "@ + artifact_identity.digest_algorithm@ + ":"@
            + artifact_identity.digest@ + "\n"@ + static_extraction_text(static_extraction),
        M1Evidence::Failed { reason, downloaded, detail } => "M1 evidence: failed\nReason: "@
            + m1_reason_text(reason) + "\nDownloaded: "@ + bool_text(downloaded) + "\nDetail: "@
            + redacted(detail@, home) + "\n"@,
    }
}

/// An inspect-action report.
pub open spec fn is_inspect_report(r: Report) -> bool {
    r.status@ == "m3_inspect"@
}

/// Declared source context of a report.
pub open spec fn report_source_context(r: Report) -> SourceContext {
    r.inspect.authority_context.redacted.source_context
}

/// Exit code of a policy decision in a source context: a decision that
/// needs a human is an error where nobody can be asked (CI).
pub open spec fn report_exit_code(d: PolicyDecision, sc: SourceContext) -> i32 {
    if d == PolicyDecision::Ask && sc == SourceContext::Ci {
        M4_ASK_REQUIRED_EXIT_CODE
    } else {
        decision_exit_code(d)
    }
}

/// Exit code of a report under a policy result.
pub open spec fn report_exit_of(p: PolicyModel, r: Report) -> i32 {
    report_exit_code(p.decision, report_source_context(r))
}

/// Human lines of the policy result.
pub open spec fn policy_text(p: PolicyModel, exit: i32) -> Seq<char> {
    "Policy decision: "@ + json_decision_text(json_decision_of(p.decision)) + "\nPolicy reasons: "@
        + reasons_text(policy_reason_texts(p.reasons)) + "\nRequired next action: "@
        + json_next_action_text(json_next_action_of(p.next_action)) + "\nExit code: "@ + i32_text(
        exit,
    ) + "\n"@
}

/// Human text of a report under a policy result.
pub open spec fn report_text(r: Report, p: PolicyModel, home: Option<Seq<char>>) -> Seq<char> {
    "Package: "@ + redacted(r.package_spec@, home) + "\nStatus: "@ + r.status@ + "\nRecommendation: "@
        + decision_debug(r.recommendation) + "\n"@ + intent_text(r, home) + evidence_text(r.m1, home) + (
    if is_inspect_report(r) {
        "\n"@ + summary_text(r.inspect) + "\n"@ + policy_text(p, report_exit_of(p, r))
    } else {
        Seq::empty()
    }) + "\nThis Rust CLI does not execute package code in M1.\nNext step: expand evidence beyond the root artifact.\n"@
}

fn render_intent(report: &Report, home: Option<&str>) -> (r: String)
    ensures
        r@ == intent_text(*report, crate::redaction::opt_view(home)),
{
    render_command_intent(&report.intent, home)
}

/// Human lines for a parsed command intent.
pub fn render_command_intent(intent: &CommandIntent, home: Option<&str>) -> (r: String)
    ensures
        r@ == command_intent_text(*intent, crate::redaction::opt_view(home)),
{
    let mut out = String::new();
    match &intent.package_spec {
        PackageSpecParse::Supported(p) => {
            out.append("Parsed: ");
            out.append(p.name.as_str());
            out.append("@");
            out.append(p.version.as_str());
            out.append("\nForwarded args: ");
            if intent.forwarded_args.len() == 0 {
                out.append("[]");
            } else {
                let shown = redact_report_values(intent.forwarded_args.as_slice(), home);
                out.append(join_strings(&shown, " ").as_str());
            }
            out.append("\n");
        },
        PackageSpecParse::Unsupported(u) => {
            out.append("Rejected: ");
            out.append(redact_report_value(intent.requested.as_str(), home).as_str());
            out.append("\nReason: ");
            out.append(m1_reason_name(&u.reason));
            out.append("\nCategory: ");
            out.append(category_name(&u.category));
            out.append("\nDownloaded: ");
            out.append(bool_name(u.downloaded));
            out.append("\n");
        },
        PackageSpecParse::Malformed(m) => {
            out.append("Rejected: ");
            out.append(redact_report_value(intent.requested.as_str(), home).as_str());
            out.append("\nReason: ");
            out.append(m1_reason_name(&m.reason));
            out.append("\nDownloaded: ");
            out.append(bool_name(m.downloaded));
            out.append("\n");
        },
    }
    out
}

fn render_evidence(m1: &M1Evidence, home: Option<&str>) -> (r: String)
    ensures
        r@ == evidence_text(*m1, crate::redaction::opt_view(home)),
{
    let mut out = String::new();
    match m1 {
        M1Evidence::NoDownload { reason, downloaded } => {
            out.append("M1 evidence: no_download\nReason: ");
            out.append(m1_reason_name(reason));
            out.append("\nDownloaded: ");
            out.append(bool_name(*downloaded));
            out.append("\n");
        },
        M1Evidence::Verified {
            resolved_package,
            integrity_status,
            artifact_identity,
            static_extraction,
            ..
        } => {
            out.append("M1 evidence: verified\nResolved: ");
            out.append(resolved_package.name.as_str());
            out.append("@");
            out.append(resolved_package.version.as_str());
            out.append("\nRegistry: ");
            out.append(redact_report_value(resolved_package.registry.url.as_str(), home).as_str());
            out.append("\nTarball: ");
            out.append(redact_report_value(resolved_package.tarball_url.as_str(), home).as_str());
            out.append("\nIntegrity: ");
            out.append(integrity_status);
            out.append("\nIntegrity metadata: ");
            out.append(resolved_package.integrity.as_str());
            out.append("\nDigest: ");
            out.append(artifact_identity.digest_algorithm.as_str());
            out.append(":");
            out.append(artifact_identity.digest.as_str());
            out.append("\n");
            out.append(render_static_extraction(static_extraction.as_ref()).as_str());
        },
        M1Evidence::Failed { reason, downloaded, detail } => {
            out.append("M1 evidence: failed\nReason: ");
            out.append(m1_reason_name(reason));
            out.append("\nDownloaded: ");
            out.append(bool_name(*downloaded));
            out.append("\nDetail: ");
            out.append(redact_report_value(detail.as_str(), home).as_str());
            out.append("\n");
        },
    }
    out
}

/// JSON of resolution evidence, tagged by `state`.
pub open spec fn m1_json_model(m: M1Evidence, home: Option<Seq<char>>) -> JsonV {
    match m {
        M1Evidence::NoDownload { reason, downloaded } => JsonV::Object(
            seq![
                ("state"@, JsonV::Str("no_download"@)),
                ("reason"@, JsonV::Str(m1_reason_text(reason))),
                ("downloaded"@, JsonV::Bool(downloaded)),
            ],
        ),
        M1Evidence::Verified {
            resolved_package,
            integrity_status,
            artifact_identity,
            registry_evidence,
            static_extraction,
        } => JsonV::Object(
            seq![
                ("state"@, JsonV::Str("verified"@)),
                ("resolved_package"@, resolved_json_model(resolved_package, home)),
                ("integrity_status"@, JsonV::Str(integrity_status@)),
                ("artifact_identity"@, identity_json_model(artifact_identity)),
                ("registry_evidence"@, registry_evidence_json_model(registry_evidence, home)),
            ] + match static_extraction {
                Some(se) => seq![("static_extraction"@, static_json_model(se))],
                None => Seq::empty(),
            },
        ),
        M1Evidence::Failed { reason, downloaded, detail } => JsonV::Object(
            seq![
                ("state"@, JsonV::Str("failed"@)),
                ("reason"@, JsonV::Str(m1_reason_text(reason))),
                ("downloaded"@, JsonV::Bool(downloaded)),
                ("detail"@, JsonV::Str(detail@)),
            ],
        ),
    }
}

fn m1_json(m: &M1Evidence, home: Option<&str>) -> (r: JsonOut)
    ensures
        r@ == m1_json_model(*m, crate::redaction::opt_view(home)),
{
    let mut members: Vec<(String, JsonOut)> = Vec::new();
    match m {
        M1Evidence::NoDownload { reason, downloaded } => {
            push_member(&mut members, "state", JsonOut::Str("no_download".to_owned()));
            push_member(&mut members, "reason", JsonOut::Str(m1_reason_name(reason).to_owned()));
            push_member(&mut members, "downloaded", JsonOut::Bool(*downloaded));
        },
        M1Evidence::Verified {
            resolved_package,
            integrity_status,
            artifact_identity,
            registry_evidence,
            static_extraction,
        } => {
            push_member(&mut members, "state", JsonOut::Str("verified".to_owned()));
            push_member(&mut members, "resolved_package", resolved_json(resolved_package, home));
            push_member(&mut members, "integrity_status", JsonOut::Str((*integrity_status).to_owned()));
            push_member(&mut members, "artifact_identity", identity_json(artifact_identity));
            push_member(&mut members, "registry_evidence", registry_evidence_json(registry_evidence, home));
            match static_extraction {
                Some(se) => {
                    push_member(&mut members, "static_extraction", static_json(se));
                },
                None => {},
            }
        },
        M1Evidence::Failed { reason, downloaded, detail } => {
            push_member(&mut members, "state", JsonOut::Str("failed".to_owned()));
            push_member(&mut members, "reason", JsonOut::Str(m1_reason_name(reason).to_owned()));
            push_member(&mut members, "downloaded", JsonOut::Bool(*downloaded));
            push_member(&mut members, "detail", JsonOut::Str(detail.clone()));
        },
    }
    proof {
        assert(view_members(members@) =~= match m1_json_model(*m, crate::redaction::opt_view(home)) {
            JsonV::Object(x) => x,
            _ => Seq::empty(),
        });
    }
    JsonOut::Object(members)
}

/// JSON of a plain resolution report.
pub open spec fn report_json_model(r: Report, home: Option<Seq<char>>) -> JsonV {
    JsonV::Object(
        seq![
            ("package_spec"@, JsonV::Str(redacted(r.package_spec@, home))),
            ("intent"@, intent_json_model(r.intent, home)),
            ("recommendation"@, JsonV::Str(decision_text(r.recommendation))),
            ("status"@, JsonV::Str(r.status@)),
            ("note"@, JsonV::Str(r.note@)),
            ("m1"@, m1_json_model(r.m1, home)),
        ],
    )
}

/// The JSON of a report, fields in declaration order.
pub fn report_json(report: &Report, home: Option<&str>) -> (r: JsonOut)
    ensures
        r@ == report_json_model(*report, crate::redaction::opt_view(home)),
{
    let mut members: Vec<(String, JsonOut)> = Vec::new();
    push_member(&mut members, "package_spec", JsonOut::Str(redact_report_value(report.package_spec.as_str(), home)));
    push_member(&mut members, "intent", intent_json(&report.intent, home));
    push_member(&mut members, "recommendation", JsonOut::Str(decision_name(&report.recommendation).to_owned()));
    push_member(&mut members, "status", JsonOut::Str(report.status.to_owned()));
    push_member(&mut members, "note", JsonOut::Str(report.note.to_owned()));
    push_member(&mut members, "m1", m1_json(&report.m1, home));
    proof {
        assert(view_members(members@) =~= match report_json_model(*report, crate::redaction::opt_view(home)) {
            JsonV::Object(x) => x,
            _ => Seq::empty(),
        });
    }
    JsonOut::Object(members)
}

/// JSON of the decision receipt of a report.
pub open spec fn receipt_json_of(
    r: Report,
    d: InspectJsonDecision,
    a: InspectJsonNextAction,
    exit: i32,
    home: Option<Seq<char>>,
) -> JsonV {
    let auth = r.inspect.authority_context.redacted@;
    JsonV::Object(
        seq![
            ("receipt_version"@, JsonV::Str(RECEIPT_VERSION@)),
            ("schema_version"@, JsonV::Str("0.1"@)),
            ("policy_version"@, JsonV::Str(RECEIPT_POLICY_VERSION@)),
            ("issued_at"@, JsonV::Null),
            ("cache_status"@, JsonV::Str(RECEIPT_CACHE_STATUS@)),
            (
                "artifact"@,
                match r.inspect.facts.artifact {
                    Some(x) => identity_json_model(x),
                    None => JsonV::Null,
                },
            ),
            (
                "command"@,
                JsonV::Object(
                    seq![
                        ("identity_key"@, JsonV::Str(auth.identity.command_intent_key)),
                        ("package_state"@, JsonV::Str(package_state_text(r.intent.package_spec))),
                        (
                            "package_name"@,
                            match r.intent.package_spec {
                                PackageSpecParse::Supported(p) => JsonV::Str(p.name@),
                                _ => JsonV::Null,
                            },
                        ),
                        (
                            "package_version"@,
                            match r.intent.package_spec {
                                PackageSpecParse::Supported(p) => JsonV::Str(p.version@),
                                _ => JsonV::Null,
                            },
                        ),
                        (
                            "forwarded_args_count"@,
                            JsonV::Number(decimal(r.intent.forwarded_args@.len())),
                        ),
                        ("requested_display"@, JsonV::Str(redacted(r.intent.requested@, home))),
                        (
                            "forwarded_args_display"@,
                            JsonV::Array(
                                str_values(
                                    redacted_args(string_views(r.intent.forwarded_args@), home, false),
                                ),
                            ),
                        ),
                    ],
                ),
            ),
            (
                "evidence_summary"@,
                JsonV::Object(
                    seq![
                        ("decision"@, JsonV::Str(json_decision_text(d))),
                        ("required_next_action"@, JsonV::Str(json_next_action_text(a))),
                        (
                            "reasons"@,
                            JsonV::Array(str_values(string_views(r.inspect.decision.reasons@))),
                        ),
                        ("exit_code"@, JsonV::Number(i32_text(exit))),
                        (
                            "execution_state"@,
                            JsonV::Str(execution_state_text(r.inspect.execution_state.state)),
                        ),
                        (
                            "package_code_executed"@,
                            JsonV::Bool(r.inspect.execution_state.package_code_executed),
                        ),
                        (
                            "heuristics_count"@,
                            JsonV::Number(decimal(r.inspect.heuristics@.len())),
                        ),
                    ],
                ),
            ),
            (
                "redaction"@,
                JsonV::Object(
                    seq![
                        ("display_redaction"@, JsonV::Str(RECEIPT_DISPLAY_REDACTION@)),
                        ("authority_identity_status"@, JsonV::Str(auth.identity.status)),
                        ("command_intent_key"@, JsonV::Str(auth.identity.command_intent_key)),
                        ("cwd_trust_class"@, JsonV::Str(auth.identity.cwd_trust_class)),
                        ("registry_key"@, opt_str_json(auth.identity.registry_key)),
                        ("boundary"@, JsonV::Str(RECEIPT_BOUNDARY@)),
                    ],
                ),
            ),
        ],
    )
}

/// JSON of an inspect-action report under a policy result (schema v0).
pub open spec fn schema_json_model(r: Report, p: PolicyModel, version: Seq<char>, home: Option<Seq<char>>) -> JsonV {
    let auth = r.inspect.authority_context.redacted@;
    let d = json_decision_of(p.decision);
    let a = json_next_action_of(p.next_action);
    let exit = report_exit_of(p, r);
    JsonV::Object(
        seq![
            ("package_spec"@, JsonV::Str(redacted(r.package_spec@, home))),
            ("recommendation"@, JsonV::Str(decision_text(r.recommendation))),
            ("status"@, JsonV::Str(r.status@)),
            ("note"@, JsonV::Str(r.note@)),
            ("schema_version"@, JsonV::Str(INSPECT_JSON_SCHEMA_VERSION@)),
            (
                "artifact"@,
                match r.inspect.facts.artifact {
                    Some(x) => identity_json_model(x),
                    None => JsonV::Null,
                },
            ),
            ("command_intent"@, intent_json_model(r.inspect.facts.command, home)),
            ("source_context"@, JsonV::Str(source_context_text(auth.source_context))),
            ("authority_context"@, authority_json_model(auth)),
            ("facts"@, facts_json_model(r.inspect.facts, home)),
            ("heuristics"@, JsonV::Array(heuristics_json_model(heuristic_views(r.inspect.heuristics@)))),
            ("external_evidence"@, JsonV::Null),
            ("attestations"@, JsonV::Null),
            ("release_diff"@, JsonV::Null),
            ("decision_receipt"@, receipt_json_of(r, d, a, exit, home)),
            ("decision"@, JsonV::Str(json_decision_text(d))),
            ("reasons"@, JsonV::Array(str_values(policy_reason_texts(p.reasons)))),
            ("required_next_action"@, JsonV::Str(json_next_action_text(a))),
            ("policy"@, policy_json_model(p, version)),
            ("execution"@, JsonV::Null),
            ("exit_code"@, JsonV::Number(i32_text(exit))),
            ("inspect"@, inspect_json_model(r.inspect, home)),
            ("m1"@, m1_json_model(r.m1, home)),
        ],
    )
}

/// Everything the renderer writes for a report under a policy result.
pub open spec fn rendered(json: bool, r: Report, p: PolicyModel, version: Seq<char>, home: Option<Seq<char>>) -> Seq<char> {
    if json {
        if is_inspect_report(r) {
            pretty(schema_json_model(r, p, version, home), 0)
        } else {
            pretty(report_json_model(r, home), 0)
        }
    } else {
        report_text(r, p, home)
    }
}

/// The exit code of a policy decision in a source context.
pub fn exit_code_for_decision(decision: &PolicyDecision, source_context: SourceContext) -> (r: i32)
    ensures
        r == report_exit_code(*decision, source_context),
{
    if *decision == PolicyDecision::Ask && source_context == SourceContext::Ci {
        M4_ASK_REQUIRED_EXIT_CODE
    } else {
        exit_code_for_policy_decision(decision)
    }
}

/// The process exit code of a report, under the policy as evaluated now.
pub fn exit_code_for_report(report: &Report) -> (r: i32)
    ensures
        exists|now: u64|
            r == report_exit_of(#[trigger] m1_policy_model(report.recommendation, report.m1, now), *report),
{
    let policy = evaluate_m1_policy(&report.recommendation, &report.m1);
    exit_code_for_decision(&policy.decision, report.inspect.authority_context.redacted.source_context)
}

#[verifier::spinoff_prover]
fn receipt_value(report: &Report, d: InspectJsonDecision, a: InspectJsonNextAction, exit: i32, home: Option<&str>) -> (j:
    JsonOut)
    ensures
        j@ == receipt_json_of(*report, d, a, exit, crate::redaction::opt_view(home)),
{
    let receipt = build_inspect_decision_receipt(report, d, a, exit, home);
    let value = receipt_json(&receipt);
    proof {
        let auth = report.inspect.authority_context.redacted@;
        assert(opt_view(receipt.redaction.registry_key) == auth.identity.registry_key);
        assert(opt_view(receipt.issued_at) == None::<Seq<char>>);
        assert((match receipt.artifact {
            Some(x) => receipt_artifact_json_model(x),
            None => JsonV::Null,
        }) == (match report.inspect.facts.artifact {
            Some(x) => identity_json_model(x),
            None => JsonV::Null,
        }));
        assert(opt_str_json(opt_view(receipt.command.package_name)) == (match report.intent.package_spec {
            PackageSpecParse::Supported(p) => JsonV::Str(p.name@),
            _ => JsonV::Null,
        }));
        assert(opt_str_json(opt_view(receipt.command.package_version)) == (match report.intent.package_spec {
            PackageSpecParse::Supported(p) => JsonV::Str(p.version@),
            _ => JsonV::Null,
        }));
        assert(string_views(receipt.evidence_summary.reasons@) == string_views(report.inspect.decision.reasons@));
        let mine = match receipt_json_model(receipt) {
            JsonV::Object(x) => x,
            _ => Seq::empty(),
        };
        let want = match receipt_json_of(*report, d, a, exit, crate::redaction::opt_view(home)) {
            JsonV::Object(x) => x,
            _ => Seq::empty(),
        };
        assert(mine.len() == want.len());
        assert(mine[6] == want[6]) by {
            let x = match mine[6].1 { JsonV::Object(x) => x, _ => Seq::empty() };
            let y = match want[6].1 { JsonV::Object(y) => y, _ => Seq::empty() };
            assert(x =~= y);
        }
        assert(mine[7] == want[7]) by {
            let x = match mine[7].1 { JsonV::Object(x) => x, _ => Seq::empty() };
            let y = match want[7].1 { JsonV::Object(y) => y, _ => Seq::empty() };
            assert(x =~= y);
        }
        assert(mine[8] == want[8]) by {
            let x = match mine[8].1 { JsonV::Object(x) => x, _ => Seq::empty() };
            let y = match want[8].1 { JsonV::Object(y) => y, _ => Seq::empty() };
            assert(x =~= y);
        }
        assert(mine =~= want);
    }
    value
}

#[verifier::spinoff_prover]
#[verifier::rlimit(50)]
fn schema_json(report: &Report, policy: &PolicyEvaluation, home: Option<&str>) -> (j: JsonOut)
    ensures
        j@ == schema_json_model(*report, policy@, policy.policy_version@, crate::redaction::opt_view(home)),
{
    let exit = exit_code_for_decision(&policy.decision, report.inspect.authority_context.redacted.source_context);
    let d = inspect_json_decision_for_policy(&policy.decision);
    let a = inspect_json_next_action_for_policy(&policy.required_next_action);
    let receipt_value = receipt_value(report, d, a, exit, home);
    let artifact = match &report.inspect.facts.artifact {
        Some(x) => identity_json(x),
        None => JsonOut::Null,
    };
    let reasons = policy_reason_names(&policy.reasons);
    let mut m: Vec<(String, JsonOut)> = Vec::new();
    push_member(&mut m, "package_spec", JsonOut::Str(redact_report_value(report.package_spec.as_str(), home)));
    push_member(&mut m, "recommendation", JsonOut::Str(decision_name(&report.recommendation).to_owned()));
    push_member(&mut m, "status", JsonOut::Str(report.status.to_owned()));
    push_member(&mut m, "note", JsonOut::Str(report.note.to_owned()));
    push_member(&mut m, "schema_version", JsonOut::Str(INSPECT_JSON_SCHEMA_VERSION.to_owned()));
    push_member(&mut m, "artifact", artifact);
    push_member(&mut m, "command_intent", intent_json(&report.inspect.facts.command, home));
    push_member(
        &mut m,
        "source_context",
        JsonOut::Str(source_context_name(report.inspect.authority_context.redacted.source_context).to_owned()),
    );
    push_member(&mut m, "authority_context", authority_json(&report.inspect.authority_context.redacted));
    push_member(&mut m, "facts", facts_json(&report.inspect.facts, home));
    push_member(&mut m, "heuristics", heuristics_json(&report.inspect));
    push_member(&mut m, "external_evidence", JsonOut::Null);
    push_member(&mut m, "attestations", JsonOut::Null);
    push_member(&mut m, "release_diff", JsonOut::Null);
    push_member(&mut m, "decision_receipt", receipt_value);
    push_member(&mut m, "decision", JsonOut::Str(json_decision_name(d).to_owned()));
    push_member(&mut m, "reasons", json_str_array(&reasons));
    push_member(&mut m, "required_next_action", JsonOut::Str(json_next_action_name(a).to_owned()));
    push_member(&mut m, "policy", policy_json(policy));
    push_member(&mut m, "execution", JsonOut::Null);
    push_member(&mut m, "exit_code", JsonOut::Number(i32_to_decimal(exit)));
    push_member(&mut m, "inspect", inspect_json(&report.inspect, home));
    push_member(&mut m, "m1", m1_json(&report.m1, home));
    proof {
        assert(view_members(m@) =~= match schema_json_model(*report, policy@, policy.policy_version@, crate::redaction::opt_view(home)) {
            JsonV::Object(x) => x,
            _ => Seq::empty(),
        });
    }
    JsonOut::Object(m)
}

fn render_policy(policy: &PolicyEvaluation, exit: i32) -> (r: String)
    ensures
        r@ == policy_text(policy@, exit),
{
    let mut out = "Policy decision: ".to_owned();
    out.append(json_decision_name(inspect_json_decision_for_policy(&policy.decision)));
    out.append("\nPolicy reasons: ");
    let reasons = policy_reason_names(&policy.reasons);
    if reasons.len() == 0 {
        out.append("none");
    } else {
        out.append(join_strings(&reasons, ", ").as_str());
    }
    out.append("\nRequired next action: ");
    out.append(json_next_action_name(inspect_json_next_action_for_policy(&policy.required_next_action)));
    out.append("\nExit code: ");
    out.append(i32_to_decimal(exit).as_str());
    out.append("\n");
    out
}

/// Render the report, under a policy result, as pretty JSON or human text.
pub fn render_report_with_policy(cli: &Cli, report: &Report, policy: &PolicyEvaluation, home: Option<&str>) -> (r: String)
    ensures
        r@ == rendered(cli.json, *report, policy@, policy.policy_version@, crate::redaction::opt_view(home)),
{
    if cli.json {
        if crate::text::str_eq(report.status, "m3_inspect") {
            return to_pretty_json(&schema_json(report, policy, home));
        }
        return to_pretty_json(&report_json(report, home));
    }
    render_text(report, policy, home)
}

#[verifier::spinoff_prover]
fn render_text(report: &Report, policy: &PolicyEvaluation, home: Option<&str>) -> (r: String)
    ensures
        r@ == report_text(*report, policy@, crate::redaction::opt_view(home)),
{
    let inspect = crate::text::str_eq(report.status, "m3_inspect");
    let mut out = String::new();
    out.append("Package: ");
    out.append(redact_report_value(report.package_spec.as_str(), home).as_str());
    out.append("\nStatus: ");
    out.append(report.status);
    out.append("\nRecommendation: ");
    out.append(decision_debug_name(&report.recommendation));
    out.append("\n");
    out.append(render_intent(report, home).as_str());
    out.append(render_evidence(&report.m1, home).as_str());
    if inspect {
        let exit = exit_code_for_decision(&policy.decision, report.inspect.authority_context.redacted.source_context);
        out.append("\n");
        out.append(render_model_summary(&report.inspect).as_str());
        out.append("\n");
        out.append(render_policy(policy, exit).as_str());
    }
    out.append("\nThis Rust CLI does not execute package code in M1.\nNext step: expand evidence beyond the root artifact.\n");
    out
}

/// Render the report as pretty JSON or human text, under the policy as
/// evaluated now; displayed values are redacted against the home directory
/// `home`, when one is known.
pub fn render_report(cli: &Cli, report: &Report, home: Option<&str>) -> (r: String)
    ensures
        exists|now: u64|
            r@ == rendered(
                cli.json,
                *report,
                #[trigger] m1_policy_model(report.recommendation, report.m1, now),
                M4_POLICY_VERSION@,
                crate::redaction::opt_view(home),
            ),
{
    let policy = evaluate_m1_policy(&report.recommendation, &report.m1);
    render_report_with_policy(cli, report, &policy, home)
}

/// The inspect schema's JSON of a report, under the policy as evaluated now.
pub fn build_inspect_json_report(report: &Report, home: Option<&str>) -> (j: JsonOut)
    ensures
        exists|now: u64|
            j@ == schema_json_model(
                *report,
                #[trigger] m1_policy_model(report.recommendation, report.m1, now),
                M4_POLICY_VERSION@,
                crate::redaction::opt_view(home),
            ),
{
    let policy = evaluate_m1_policy(&report.recommendation, &report.m1);
    schema_json(report, &policy, home)
}

/// Render a closure refusal report as pretty JSON or as human text.
pub fn render_m2_execution_refusal_report(cli: &Cli, report: &M2ExecutionRefusalReport) -> (r:
    String)
    ensures
        r@ == if cli.json {
            pretty(refusal_json(*report), 0)
        } else {
            refusal_text(*report)
        },
{
    if cli.json {
        to_pretty_json(&m2_refusal_json(report))
    } else {
        render_m2_execution_refusal_text(report)
    }
}

/// Run a command line: an invalid source-context option yields its error
/// and exit code 2; a hidden refusal reason yields its refusal report and
/// exit code; otherwise the report is built and rendered, exit code 0.
pub fn run_with_exit_code<M: RegistryTransport, D: TarballTransport>(
    cli: &Cli,
    resolver: &RootArtifactResolver<M, D>,
    ambient: &AmbientPaths,
) -> (r: CliRunOutput)
    ensures
        source_context_model(*cli) is None ==> r.exit_code == 2,
        source_context_model(*cli) is Some ==> match cli.m2_refusal {
            Some(reason) => exists|report: M2ExecutionRefusalReport|
                #[trigger] refusal_report_holds(
                    report,
                    report.command,
                    seq![refusal_reason_model(reason)],
                ) && report.command.requested@ == raw_package_spec_model(tokens(*cli))
                    && string_views(report.command.forwarded_args@) == forwarded_args_model(
                    tokens(*cli),
                ) && r.exit_code == report.exit_code && r.stdout@ == (if cli.json {
                    pretty(refusal_json(report), 0)
                } else {
                    refusal_text(report)
                }),
            None => exists|
                report: Report,
                outcome: Option<Result<VerifiedRootArtifact, RootArtifactResolutionError>>,
                now: u64,
            |
                #![trigger report_holds(report, *cli, outcome, *ambient), m1_policy_model(report.recommendation, report.m1, now)]
                report_holds(report, *cli, outcome, *ambient) && (outcome matches Some(res)
                    ==> report.intent.package_spec matches PackageSpecParse::Supported(spec)
                    && resolver.explains(spec@, res)) && r.stdout@ == rendered(
                    cli.json,
                    report,
                    m1_policy_model(report.recommendation, report.m1, now),
                    M4_POLICY_VERSION@,
                    ambient.home.deep_view(),
                ) && r.exit_code == report_exit_of(
                    m1_policy_model(report.recommendation, report.m1, now),
                    report,
                ),
        },
{
    if let Err(message) = cli.source_context_choice() {
        return CliRunOutput { stdout: message, exit_code: 2 };
    }
    match cli.m2_refusal {
        Some(reason) => {
            let command = ClosureCommandIdentity {
                requested: cli.raw_package_spec(),
                forwarded_args: cli.forwarded_args(),
            };
            let reasons = vec![M2Reason::from(reason)];
            assert(reasons@ =~= seq![refusal_reason_model(reason)]);
            let report = build_m2_execution_refusal_report(command, reasons);
            let exit_code = report.exit_code;
            let stdout = render_m2_execution_refusal_report(cli, &report);
            CliRunOutput { stdout, exit_code }
        },
        None => {
            let report = build_report_with_resolver(cli, resolver, ambient);
            let policy = evaluate_m1_policy(&report.recommendation, &report.m1);
            let home = crate::authority_context::opt_str(&ambient.home);
            let stdout = render_report_with_policy(cli, &report, &policy, home);
            let exit_code = exit_code_for_decision(
                &policy.decision,
                report.inspect.authority_context.redacted.source_context,
            );
            proof {
                let outcome = choose|
                    outcome: Option<Result<VerifiedRootArtifact, RootArtifactResolutionError>>,
                | #[trigger] report_holds(report, *cli, outcome, *ambient);
                assert(report_holds(report, *cli, outcome, *ambient));
                let now = choose|now: u64| policy@ == m1_policy_model(report.recommendation, report.m1, now);
                assert(policy@ == m1_policy_model(report.recommendation, report.m1, now));
            }
            CliRunOutput { stdout, exit_code }
        },
    }
}

/// A spec outside the supported surface is refused before any download:
/// the report denies it, records that nothing was downloaded, and stops
/// before execution.
pub proof fn law_refused_specs_never_download(
    r: Report,
    cli: Cli,
    outcome: Option<Result<VerifiedRootArtifact, RootArtifactResolutionError>>,
    ambient: AmbientPaths,
)
    requires
        report_holds(r, cli, outcome, ambient),
        !(r.intent.package_spec is Supported),
    ensures
        r.recommendation == Decision::Deny,
        r.m1 matches M1Evidence::NoDownload { downloaded, .. } && !downloaded,
        r.inspect.execution_state.state == InspectExecutionStateKind::RefusedBeforeExecution,
        !r.inspect.execution_state.package_code_executed,
{
}

/// The exit code of a run follows its evidence: 2 for a spec refused as
/// unsupported or malformed, 3 when the registry could not supply the
/// package or version, 4 when the tarball did not match its integrity; and
/// a refusal report whose decision is execution refused exits with 14.
pub proof fn law_run_exit_codes(
    r: Report,
    now: u64,
    refusal: M2ExecutionRefusalReport,
    command: ClosureCommandIdentity,
    reasons: Seq<M2Reason>,
)
    ensures
        (r.m1 matches M1Evidence::NoDownload { reason, .. } && (reason == M1Reason::UnsupportedSpec
            || reason == M1Reason::MalformedSpec)) ==> report_exit_of(
            m1_policy_model(r.recommendation, r.m1, now),
            r,
        ) == 2,
        (r.m1 matches M1Evidence::Failed { reason, .. } && (reason == M1Reason::RegistryError || reason
            == M1Reason::MissingPackage || reason == M1Reason::MissingVersion)) ==> report_exit_of(
            m1_policy_model(r.recommendation, r.m1, now),
            r,
        ) == 3,
        (r.m1 matches M1Evidence::Failed { reason, .. } && reason == M1Reason::IntegrityMismatch)
            ==> report_exit_of(m1_policy_model(r.recommendation, r.m1, now), r) == 4,
        refusal_report_holds(refusal, command, reasons) && refusal.decision
            == ClosureDecision::ExecutionRefused ==> refusal.exit_code == 14,
{
}

/// The process succeeds (exit code 0) exactly when the decision lets the
/// command go on: an allow, or an ask where a person can be asked.
pub proof fn law_exit_zero_only_when_not_refused(d: PolicyDecision, sc: SourceContext)
    ensures
        (report_exit_code(d, sc) == 0) <==> (d == PolicyDecision::Allow || (d == PolicyDecision::Ask
            && sc != SourceContext::Ci)),
{
}

} // verus!
