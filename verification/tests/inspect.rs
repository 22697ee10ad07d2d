use base64::prelude::{Engine as _, BASE64_STANDARD};
use flate2::write::GzEncoder;
use flate2::Compression;
use safe_npx::authority_context::AmbientPaths;
use safe_npx::cli::{parse_source_context, Cli};
use safe_npx::contracts::{Decision, M1Reason, SourceContext};
use safe_npx::download::{TarballDownloader, TarballHttpResponse, TarballTransport, TarballTransportError};
use safe_npx::closure::{ClosureCommandIdentity, M2Reason};
use safe_npx::evidence::M1Evidence;
use safe_npx::m2_report::build_m2_execution_refusal_report;
use safe_npx::inspect_model::{InspectExecutionStateKind, InspectHeuristicKind, InspectNextAction};
use safe_npx::policy::{
    M2_EXECUTION_REFUSED_EXIT_CODE, M4_ASK_REQUIRED_EXIT_CODE, M4_DELEGATED_EXECUTION_FAILED_EXIT_CODE,
    M4_DENIED_EXIT_CODE, M4_INSPECTION_ERROR_EXIT_CODE, M4_SUCCESS_EXIT_CODE, M4_UNSUPPORTED_EXIT_CODE,
};
use safe_npx::registry::{NpmMetadataClient, RegistryHttpResponse, RegistryTransport, RegistryTransportError};
use safe_npx::report::{build_report_with_resolver, exit_code_for_report, render_report, run_with_exit_code, Report};
use safe_npx::resolver::RootArtifactResolver;
use serde_json::Value;
use sha2::{Digest, Sha512};
use std::cell::RefCell;
use tar::{Builder, Header};

struct StubRegistryTransport {
    responses: RefCell<Vec<Result<RegistryHttpResponse, RegistryTransportError>>>,
}

impl RegistryTransport for StubRegistryTransport {
    fn get(&self, _url: &str) -> Result<RegistryHttpResponse, RegistryTransportError> {
        self.responses.borrow_mut().remove(0)
    }
}

struct StubTarballTransport {
    responses: RefCell<Vec<Result<TarballHttpResponse, TarballTransportError>>>,
}

impl TarballTransport for StubTarballTransport {
    fn get_bytes(&self, _url: &str) -> Result<TarballHttpResponse, TarballTransportError> {
        self.responses.borrow_mut().remove(0)
    }
}

type StubResolver = RootArtifactResolver<StubRegistryTransport, StubTarballTransport>;

/// Command-line arguments as `safe-npx` reads them: flags first, then the command.
fn cli(args: &[&str]) -> Cli {
    let mut cli = Cli {
        json: false,
        dry_run: false,
        decision: Decision::Ask,
        m2_refusal: None,
        source_context: SourceContext::Unknown,
        command: Vec::new(),
    };
    let mut i = 1;
    while i < args.len() {
        match args[i] {
            "--json" => cli.json = true,
            "--dry-run" => cli.dry_run = true,
            "--source-context" => {
                i += 1;
                cli.source_context = parse_source_context(args[i]).expect("valid source context");
            }
            "--decision" => {
                i += 1;
                cli.decision = match args[i] {
                    "allow" => Decision::Allow,
                    "deny" => Decision::Deny,
                    _ => Decision::Ask,
                };
            }
            _ => {
                cli.command = args[i..].iter().map(|a| a.to_string()).collect();
                break;
            }
        }
        i += 1;
    }
    cli
}

fn ambient() -> AmbientPaths {
    AmbientPaths {
        cwd: Some("/workspace/project".to_string()),
        home: Some("/Users/alice".to_string()),
        temp_dir: "/tmp".to_string(),
    }
}

fn build(cli: &Cli, resolver: &StubResolver) -> Report {
    build_report_with_resolver(cli, resolver, &ambient())
}

fn resolver_with(tarball_bytes: Vec<u8>) -> StubResolver {
    let integrity = integrity_for(&tarball_bytes);
    resolver_from(metadata_body(&integrity), tarball_bytes)
}

fn resolver_from(metadata_body: String, tarball_bytes: Vec<u8>) -> StubResolver {
    RootArtifactResolver::new(
        NpmMetadataClient::public(StubRegistryTransport {
            responses: RefCell::new(vec![Ok(RegistryHttpResponse { status: 200, body: metadata_body })]),
        }),
        TarballDownloader::new(StubTarballTransport {
            responses: RefCell::new(vec![Ok(TarballHttpResponse { status: 200, bytes: tarball_bytes })]),
        }),
    )
}

fn registry_failure_resolver() -> StubResolver {
    RootArtifactResolver::new(
        NpmMetadataClient::public(StubRegistryTransport {
            responses: RefCell::new(vec![Ok(RegistryHttpResponse { status: 500, body: "{}".to_string() })]),
        }),
        TarballDownloader::new(StubTarballTransport { responses: RefCell::new(Vec::new()) }),
    )
}

fn metadata_body(integrity: &str) -> String {
    format!(
        r#"{{
            "versions": {{
                "1.2.3": {{
                    "version": "1.2.3",
                    "dist": {{
                        "tarball": "https://registry.npmjs.org/create-example/-/create-example-1.2.3.tgz",
                        "integrity": "{}"
                    }}
                }}
            }}
        }}"#,
        integrity
    )
}

fn integrity_for(bytes: &[u8]) -> String {
    format!("sha512-{}", BASE64_STANDARD.encode(Sha512::digest(bytes)))
}

fn package_tarball(package_json: &str) -> Vec<u8> {
    let mut gzip = GzEncoder::new(Vec::new(), Compression::default());
    {
        let mut builder = Builder::new(&mut gzip);
        append_file(&mut builder, "package/package.json", package_json.as_bytes());
        append_file(&mut builder, "package/bin/create.js", b"#!/usr/bin/env node\n");
        builder.finish().expect("tar builder should finish");
    }
    gzip.finish().expect("gzip encoder should finish")
}

fn append_file(builder: &mut Builder<&mut GzEncoder<Vec<u8>>>, path: &str, bytes: &[u8]) {
    let mut header = Header::new_gnu();
    header.set_size(bytes.len() as u64);
    header.set_mode(0o644);
    header.set_cksum();
    builder.append_data(&mut header, path, bytes).expect("fixture file should append");
}

fn inspect_report(tarball: &[u8]) -> Report {
    let cli = cli(&["safe-npx", "inspect", "create-example@1.2.3"]);
    build(&cli, &resolver_with(tarball.to_vec()))
}

fn bin_path<'a>(bins: &'a [(String, String)], name: &str) -> Option<&'a String> {
    bins.iter().find(|(k, _)| k == name).map(|(_, v)| v)
}

#[test]
fn parses_explicit_inspect_action() {
    let cli = cli(&["safe-npx", "inspect", "create-example@1.2.3", "--", "--template", "react"]);

    assert!(cli.is_inspect_action());
    assert_eq!(cli.raw_package_spec(), "create-example@1.2.3");
    assert_eq!(cli.forwarded_args(), ["--template", "react"]);
}

#[test]
fn inspect_action_extracts_static_package_metadata_and_stops() {
    let tarball = package_tarball(
        r#"{
            "name":"create-example",
            "version":"1.2.3",
            "bin":{"create-example":"bin/create.js"}
        }"#,
    );
    let report = inspect_report(&tarball);

    assert_eq!(report.status, "m3_inspect");
    assert!(report.note.contains("statically extracts"));
    let M1Evidence::Verified { static_extraction: Some(static_extraction), .. } = report.m1 else {
        panic!("inspect action should extract static metadata");
    };
    assert_eq!(static_extraction.status, "extracted");
    assert_eq!(
        bin_path(&static_extraction.metadata.bins, "create-example"),
        Some(&"bin/create.js".to_string())
    );
    assert!(static_extraction.metadata.lifecycle_scripts.is_empty());
    assert!(static_extraction.metadata.dependency_declarations.is_empty());
}

#[test]
fn inspect_action_reports_extraction_failure_without_panic() {
    let report = inspect_report(b"not-a-tarball");

    assert_eq!(exit_code_for_report(&report), 3);
    let M1Evidence::Failed { reason, downloaded, detail } = report.m1 else {
        panic!("invalid archive should be reported as inspect failure");
    };
    assert_eq!(reason, M1Reason::RegistryError);
    assert!(downloaded);
    assert!(detail.contains("static extraction failed"));
}

#[test]
fn inspect_action_reports_integrity_failure_without_extraction() {
    let tarball = package_tarball(r#"{"name":"create-example","version":"1.2.3"}"#);
    let resolver = resolver_from(metadata_body(&integrity_for(b"different-bytes")), tarball);
    let cli = cli(&["safe-npx", "inspect", "create-example@1.2.3"]);
    let report = build(&cli, &resolver);

    assert_eq!(exit_code_for_report(&report), 4);
    let M1Evidence::Failed { reason, downloaded, detail: _ } = report.m1 else {
        panic!("integrity mismatch should be reported as inspect failure");
    };
    assert_eq!(reason, M1Reason::IntegrityMismatch);
    assert!(downloaded);
}

#[test]
fn inspect_action_reports_m2_closure_blockers_as_static_metadata() {
    let tarball = package_tarball(
        r#"{
            "name":"create-example",
            "version":"1.2.3",
            "scripts":{"postinstall":"node postinstall.js"},
            "dependencies":{"left-pad":"1.3.0"}
        }"#,
    );
    let cli = cli(&["safe-npx", "--json", "inspect", "create-example@1.2.3"]);
    let output = render_report(&cli, &build(&cli, &resolver_with(tarball)), None);

    assert!(output.contains("\"static_extraction\""));
    assert!(output.contains("\"lifecycle_scripts\""));
    assert!(output.contains("\"postinstall\""));
    assert!(output.contains("\"dependency_declarations\""));
    assert!(output.contains("\"left-pad\""));
    assert!(output.contains("\"execution\": null"));
}

#[test]
fn inspect_human_output_reports_root_package_facts() {
    let tarball = package_tarball(
        r#"{
            "name":"create-example",
            "version":"1.2.3",
            "bin":{"create-example":"bin/create.js","helper":"bin/helper.js"},
            "scripts":{"postinstall":"node postinstall.js"},
            "dependencies":{"left-pad":"1.3.0"}
        }"#,
    );
    let cli = cli(&["safe-npx", "inspect", "create-example@1.2.3"]);
    let output = render_report(&cli, &build(&cli, &resolver_with(tarball)), None);

    assert!(output.contains("create-example -> bin/create.js"));
    assert!(output.contains("helper -> bin/helper.js"));
    assert!(output.contains("postinstall -> node postinstall.js"));
    assert!(output.contains("left-pad (Runtime) 1.3.0 [declaration_only]"));
    assert!(output.contains("Recommendation: Ask"));
}

#[test]
fn inspect_action_keeps_unsupported_specs_before_downloads() {
    let cli = cli(&["safe-npx", "inspect", "create-example@latest"]);
    let report = build(&cli, &resolver_with(b"unused".to_vec()));
    let output = render_report(&cli, &report, None);

    assert!(output.contains("Rejected: create-example@latest"));
    assert!(output.contains("Reason: unsupported_spec"));
    assert!(output.contains("Downloaded: false"));
    assert_eq!(exit_code_for_report(&report), 2);
}

#[test]
fn fact_only_inspect_evidence_has_no_heuristics() {
    let tarball = package_tarball(
        r#"{"name":"create-example","version":"1.2.3","bin":{"create-example":"bin/create.js"}}"#,
    );
    let report = inspect_report(&tarball);

    assert!(report.inspect.facts.root_package.is_some());
    assert!(report.inspect.heuristics.is_empty());
    assert_eq!(report.inspect.execution_state.state, InspectExecutionStateKind::StoppedBeforeExecution);
    assert!(!report.inspect.execution_state.package_code_executed);
}

#[test]
fn heuristic_evidence_is_report_only_and_not_a_hard_denial() {
    let tarball = package_tarball(
        r#"{
            "name":"create-example",
            "version":"1.2.3",
            "bin":{"create-example":"bin/create.js"},
            "scripts":{"postinstall":"node postinstall.js"},
            "dependencies":{"left-pad":"1.3.0"}
        }"#,
    );
    let report = inspect_report(&tarball);

    assert_eq!(report.inspect.decision.recommendation, Decision::Ask);
    assert!(report.inspect.heuristics.iter().all(|signal| signal.report_only));
    assert!(report
        .inspect
        .heuristics
        .iter()
        .any(|signal| signal.kind == InspectHeuristicKind::LifecycleScriptsPresent));
    assert!(report
        .inspect
        .heuristics
        .iter()
        .any(|signal| signal.kind == InspectHeuristicKind::DependencyDeclarationsPresent));
}

#[test]
fn unsupported_refusal_evidence_is_separate_from_facts() {
    let cli = cli(&["safe-npx", "inspect", "create-example@latest"]);
    let report = build(&cli, &resolver_with(b"unused".to_vec()));

    assert!(report.inspect.facts.refusal.is_some());
    assert!(report.inspect.facts.root_package.is_none());
    assert_eq!(report.inspect.execution_state.state, InspectExecutionStateKind::RefusedBeforeExecution);
    assert_eq!(report.inspect.decision.required_next_action, InspectNextAction::Stop);
}

#[test]
fn missing_optional_facts_remain_absent() {
    let tarball = package_tarball(r#"{"name":"create-example","version":"1.2.3"}"#);
    let report = inspect_report(&tarball);
    let root_package = report.inspect.facts.root_package.expect("inspect should extract root package facts");

    assert_eq!(root_package.metadata.optional_evidence.repository, None);
    assert_eq!(root_package.metadata.optional_evidence.license, None);
    assert!(root_package.metadata.optional_evidence.maintainers.is_empty());
}

#[test]
fn human_and_json_renderers_consume_shared_model() {
    let package_json = r#"{
            "name":"create-example",
            "version":"1.2.3",
            "bin":{"create-example":"bin/create.js"},
            "scripts":{"postinstall":"node postinstall.js"},
            "dependencies":{"left-pad":"1.3.0"}
        }"#;
    let human_cli = cli(&["safe-npx", "inspect", "create-example@1.2.3"]);
    let json_cli = cli(&["safe-npx", "--json", "inspect", "create-example@1.2.3"]);
    let human_report = build(&human_cli, &resolver_with(package_tarball(package_json)));
    let human = render_report(&human_cli, &human_report, None);
    let json_report = build(&json_cli, &resolver_with(package_tarball(package_json)));
    let json = render_report(&json_cli, &json_report, None);

    assert!(human.contains("postinstall -> node postinstall.js"));
    assert!(human.contains("left-pad (Runtime) 1.3.0 [declaration_only]"));
    assert!(human.contains("- lifecycle_scripts_present [report_only]"));
    assert!(human.contains("- dependency_declarations_present [report_only]"));
    assert!(human.contains("Decision reasons: m3_heuristics_report_only"));
    assert!(human.contains("Required next action: ask_user"));
    assert!(human.contains("Authority: command=create-example@1.2.3"));
    assert!(human.contains(
        "Authority boundary: authority context describes ambient process authority; it is not sandboxing"
    ));
    assert!(human.contains("Execution: stopped_before_execution; package code executed: false"));
    assert!(json.contains("\"inspect\""));
    assert!(json.contains("\"heuristics\""));
    assert!(json.contains("\"report_only\": true"));
}

#[test]
fn human_renderer_preserves_failed_refusal_state_from_shared_model() {
    let tarball = package_tarball(r#"{"name":"create-example","version":"1.2.3"}"#);
    let resolver = resolver_from(metadata_body(&integrity_for(b"different bytes")), tarball);
    let cli = cli(&["safe-npx", "inspect", "create-example@1.2.3"]);
    let report = build(&cli, &resolver);
    let human = render_report(&cli, &report, None);

    assert_eq!(report.inspect.execution_state.state, InspectExecutionStateKind::FailedBeforeExecution);
    assert!(human.contains("M1 evidence: failed"));
    assert!(human.contains("Reason: integrity_mismatch"));
    assert!(!human.contains("M1 evidence: no_download"));
}

#[test]
fn source_context_defaults_to_unknown_without_inference() {
    let cli = cli(&["safe-npx", "inspect", "create-example@latest"]);
    let report = build(&cli, &resolver_with(b"unused".to_vec()));
    let human = render_report(&cli, &report, None);

    assert_eq!(report.inspect.authority_context.redacted.source_context, SourceContext::Unknown);
    assert!(human.contains("source_context=unknown"));
}

#[test]
fn source_context_categories_render_in_human_and_json_reports() {
    let cases = [
        ("manual_terminal", SourceContext::ManualTerminal),
        ("docs_snippet", SourceContext::DocsSnippet),
        ("agent_skill", SourceContext::AgentSkill),
        ("ci", SourceContext::Ci),
        ("unknown", SourceContext::Unknown),
    ];

    for (value, expected) in cases {
        let cli = cli(&["safe-npx", "--source-context", value, "inspect", "create-example@latest"]);
        let report = build(&cli, &resolver_with(b"unused".to_vec()));
        let human = render_report(&cli, &report, None);

        assert_eq!(report.inspect.authority_context.redacted.source_context, expected);
        assert!(human.contains(&format!("source_context={value}")));

        let json_cli = self::cli(&[
            "safe-npx",
            "--json",
            "--source-context",
            value,
            "inspect",
            "create-example@latest",
        ]);
        let json_report = build(&json_cli, &resolver_with(b"unused".to_vec()));
        let json = render_report(&json_cli, &json_report, None);

        assert!(json.contains(&format!("\"source_context\": \"{value}\"")));
    }
}

#[test]
fn source_context_after_inspect_action_is_still_caller_declared() {
    let cli = cli(&["safe-npx", "inspect", "--source-context", "ci", "create-example@latest"]);
    let report = build(&cli, &resolver_with(b"unused".to_vec()));
    let human = render_report(&cli, &report, None);

    assert_eq!(report.inspect.authority_context.redacted.source_context, SourceContext::Ci);
    assert_eq!(cli.raw_package_spec(), "create-example@latest");
    assert!(human.contains("source_context=ci"));
}

#[test]
fn source_context_after_inspect_action_supports_equals_syntax() {
    let cli = cli(&["safe-npx", "inspect", "--source-context=agent_skill", "create-example@latest"]);
    let report = build(&cli, &resolver_with(b"unused".to_vec()));

    assert_eq!(report.inspect.authority_context.redacted.source_context, SourceContext::AgentSkill);
    assert_eq!(cli.raw_package_spec(), "create-example@latest");
}

#[test]
fn invalid_source_context_after_inspect_is_refused_before_any_work() {
    let cli = cli(&["safe-npx", "inspect", "--source-context", "guessed_terminal", "create-example@latest"]);
    assert!(cli.source_context_choice().is_err());

    let output = run_with_exit_code(&cli, &registry_failure_resolver(), &ambient());
    assert_eq!(output.exit_code, 2);
    assert!(output.stdout.contains("invalid value 'guessed_terminal'"));
}

#[test]
fn m4_exit_code_contract_covers_current_decisions() {
    let allow_cli = cli(&["safe-npx", "--decision", "allow", "create-example@1.2.3"]);
    let allow_report = build(&allow_cli, &resolver_with(b"fixture".to_vec()));
    assert_eq!(exit_code_for_report(&allow_report), M4_SUCCESS_EXIT_CODE);

    let deny_cli = cli(&["safe-npx", "--decision", "deny", "create-example@1.2.3"]);
    let deny_report = build(&deny_cli, &resolver_with(b"fixture".to_vec()));
    assert_eq!(exit_code_for_report(&deny_report), M4_DENIED_EXIT_CODE);

    let ask_cli = cli(&["safe-npx", "--source-context", "ci", "create-example@1.2.3"]);
    let ask_report = build(&ask_cli, &resolver_with(b"fixture".to_vec()));
    assert_eq!(exit_code_for_report(&ask_report), M4_ASK_REQUIRED_EXIT_CODE);

    let unsupported_cli = cli(&["safe-npx", "create-example@next"]);
    let unsupported_report = build(&unsupported_cli, &registry_failure_resolver());
    assert_eq!(exit_code_for_report(&unsupported_report), M4_UNSUPPORTED_EXIT_CODE);

    let mismatch_cli = cli(&["safe-npx", "create-example@1.2.3"]);
    let mismatch_report = build(
        &mismatch_cli,
        &resolver_from(metadata_body(&integrity_for(b"different-bytes")), b"fixture".to_vec()),
    );
    assert_eq!(exit_code_for_report(&mismatch_report), M4_DENIED_EXIT_CODE);

    let registry_failure_report = build(&mismatch_cli, &registry_failure_resolver());
    assert_eq!(exit_code_for_report(&registry_failure_report), M4_INSPECTION_ERROR_EXIT_CODE);

    let execution_refusal = build_m2_execution_refusal_report(
        ClosureCommandIdentity {
            requested: "create-example@1.2.3".to_string(),
            forwarded_args: vec!["--template".to_string(), "react".to_string()],
        },
        vec![M2Reason::UnsupportedClosure],
    );
    assert_eq!(execution_refusal.exit_code, M2_EXECUTION_REFUSED_EXIT_CODE);
    assert_eq!(M4_DELEGATED_EXECUTION_FAILED_EXIT_CODE, 15);
}

struct InspectDecisionCase {
    argv: &'static [&'static str],
    tarball: Option<Vec<u8>>,
    expected_decision: &'static str,
    expected_reasons: &'static [&'static str],
    expected_next_action: &'static str,
    expected_exit_code: i32,
}

fn case_resolver(tarball: &Option<Vec<u8>>) -> StubResolver {
    match tarball {
        Some(bytes) => resolver_with(bytes.clone()),
        None => registry_failure_resolver(),
    }
}

fn assert_inspect_decision_case(case: InspectDecisionCase) {
    let human_argv = case.argv.to_vec();
    let mut json_argv = case.argv.to_vec();
    json_argv.insert(1, "--json");
    let human_cli = cli(&human_argv);
    let json_cli = cli(&json_argv);

    let human_run = run_with_exit_code(&human_cli, &case_resolver(&case.tarball), &ambient());
    let json_run = run_with_exit_code(&json_cli, &case_resolver(&case.tarball), &ambient());
    let human_report = build(&human_cli, &case_resolver(&case.tarball));
    let value = serde_json::from_str::<Value>(&json_run.stdout).expect("valid json");
    let reasons: Vec<&str> = value["reasons"]
        .as_array()
        .expect("reasons")
        .iter()
        .map(|r| r.as_str().expect("reason"))
        .collect();

    assert_eq!(exit_code_for_report(&human_report), case.expected_exit_code);
    assert_eq!(human_run.exit_code, case.expected_exit_code);
    assert_eq!(json_run.exit_code, case.expected_exit_code);
    assert_eq!(value["decision"], case.expected_decision);
    assert_eq!(value["required_next_action"], case.expected_next_action);
    assert_eq!(value["exit_code"], case.expected_exit_code);
    assert_eq!(reasons, case.expected_reasons);
    assert!(value["execution"].is_null());
    assert!(!human_report.inspect.execution_state.package_code_executed);

    let human = human_run.stdout;
    assert!(human.contains(&format!("Policy decision: {}", case.expected_decision)));
    assert!(human.contains(&format!("Required next action: {}", case.expected_next_action)));
    assert!(human.contains(&format!("Exit code: {}", case.expected_exit_code)));
    for reason in case.expected_reasons {
        assert!(human.contains(reason));
    }
    assert!(human.contains("package code executed: false"));
}

#[test]
fn decision_contract_covers_allow_ask_deny_unsupported_and_inspection_error() {
    let clean_package = package_tarball(
        r#"{
            "name":"create-example",
            "version":"1.2.3",
            "bin":{"create-example":"bin/create.js"}
        }"#,
    );
    assert_inspect_decision_case(InspectDecisionCase {
        argv: &["safe-npx", "--decision", "allow", "inspect", "create-example@1.2.3"],
        tarball: Some(clean_package.clone()),
        expected_decision: "allow",
        expected_reasons: &["caller_requested_allow"],
        expected_next_action: "none",
        expected_exit_code: M4_SUCCESS_EXIT_CODE,
    });
    assert_inspect_decision_case(InspectDecisionCase {
        argv: &["safe-npx", "inspect", "create-example@1.2.3"],
        tarball: Some(clean_package.clone()),
        expected_decision: "ask",
        expected_reasons: &["caller_requested_ask"],
        expected_next_action: "ask_user",
        expected_exit_code: M4_SUCCESS_EXIT_CODE,
    });
    let lifecycle_package = package_tarball(
        r#"{
            "name":"create-example",
            "version":"1.2.3",
            "scripts":{"postinstall":"node postinstall.js"}
        }"#,
    );
    assert_inspect_decision_case(InspectDecisionCase {
        argv: &["safe-npx", "--decision", "allow", "--source-context", "ci", "inspect", "create-example@1.2.3"],
        tarball: Some(lifecycle_package),
        expected_decision: "ask",
        expected_reasons: &["caller_requested_allow", "lifecycle_script_present"],
        expected_next_action: "ask_user",
        expected_exit_code: M4_ASK_REQUIRED_EXIT_CODE,
    });
    assert_inspect_decision_case(InspectDecisionCase {
        argv: &["safe-npx", "--decision", "deny", "inspect", "create-example@1.2.3"],
        tarball: Some(clean_package),
        expected_decision: "deny",
        expected_reasons: &["caller_requested_deny"],
        expected_next_action: "none",
        expected_exit_code: M4_DENIED_EXIT_CODE,
    });
    assert_inspect_decision_case(InspectDecisionCase {
        argv: &["safe-npx", "inspect", "create-example@latest"],
        tarball: Some(b"unused".to_vec()),
        expected_decision: "unsupported",
        expected_reasons: &["unsupported_spec"],
        expected_next_action: "retry_narrower_command",
        expected_exit_code: M4_UNSUPPORTED_EXIT_CODE,
    });
    assert_inspect_decision_case(InspectDecisionCase {
        argv: &["safe-npx", "inspect", "create-example@1.2.3"],
        tarball: None,
        expected_decision: "inspection_error",
        expected_reasons: &["registry_error"],
        expected_next_action: "inspect_only",
        expected_exit_code: M4_INSPECTION_ERROR_EXIT_CODE,
    });
}

#[test]
fn inspect_json_report_carries_schema_envelope_and_receipt() {
    let tarball = package_tarball(
        r#"{"name":"create-example","version":"1.2.3","bin":{"create-example":"bin/create.js"}}"#,
    );
    let cli = cli(&["safe-npx", "--json", "inspect", "create-example@1.2.3"]);
    let output = render_report(&cli, &build(&cli, &resolver_with(tarball)), None);
    let value = serde_json::from_str::<Value>(&output).expect("valid json");

    assert_eq!(value["schema_version"], "0.1");
    assert!(value["external_evidence"].is_null());
    assert!(value["attestations"].is_null());
    assert!(value["release_diff"].is_null());
    assert_eq!(value["source_context"], "unknown");
    assert_eq!(value["authority_context"]["cwd"]["category"], "trusted_project");
    assert_eq!(value["artifact"]["digest_algorithm"], "sha512");
    let receipt = &value["decision_receipt"];
    assert_eq!(receipt["receipt_version"], "m3-inspect-receipt-v0");
    assert_eq!(receipt["cache_status"], "not_an_approval_cache");
    assert!(receipt["issued_at"].is_null());
    assert_eq!(receipt["command"]["package_state"], "supported");
    assert_eq!(receipt["command"]["package_name"], "create-example");
    assert!(receipt["command"]["identity_key"].as_str().expect("key").starts_with("sha256:"));
    assert_eq!(receipt["evidence_summary"]["decision"], "ask");
    assert_eq!(receipt["redaction"]["display_redaction"], "redacted_report_v0");
    assert_eq!(value["inspect"]["execution_state"]["package_code_executed"], false);
}

#[test]
fn plain_resolution_reports_keep_legacy_json_without_execution() {
    let cli = cli(&["safe-npx", "--json", "create-example@next"]);
    let output = render_report(&cli, &build(&cli, &registry_failure_resolver()), None);
    assert!(!output.contains("\"execution\""));
    assert!(output.contains("\"intent\""));
}

#[test]
fn unsupported_specs_are_redacted_in_human_and_json_reports() {
    let human_cli = cli(&["safe-npx", "--dry-run", "/Users/alice/private/pkg"]);
    let human = render_report(&human_cli, &build(&human_cli, &registry_failure_resolver()), None);
    assert!(!human.contains("/Users/alice"));
    assert!(human.contains("<home>"));

    let json_cli = cli(&["safe-npx", "--json", "--dry-run", "/Users/alice/private/pkg"]);
    let json = render_report(&json_cli, &build(&json_cli, &registry_failure_resolver()), None);
    assert!(!json.contains("/Users/alice"));
    assert!(json.contains("<home>"));
}

#[test]
fn heuristic_only_json_does_not_promote_to_policy_reason() {
    let tarball = package_tarball(r#"{"name":"create-example","version":"1.2.3"}"#);
    let cli = cli(&["safe-npx", "--json", "--decision", "allow", "inspect", "create-example@1.2.3"]);
    let report = build(&cli, &resolver_with(tarball));
    let json = render_report(&cli, &report, None);
    let value: Value = serde_json::from_str(&json).expect("json should parse");

    assert_eq!(value["decision"], "allow");
    assert_eq!(value["required_next_action"], "none");
    let expected_reasons: Value = serde_json::from_str(r#"["caller_requested_allow"]"#).expect("reasons");
    assert_eq!(value["reasons"], expected_reasons);
    let expected_rules: Value = serde_json::from_str(r#"["caller_recommendation"]"#).expect("rules");
    assert_eq!(value["policy"]["rule_ids"], expected_rules);
    assert!(value["policy"]["findings"].as_array().unwrap().is_empty());
    assert_eq!(value["heuristics"][0]["kind"], "unusual_package_shape");
    assert_eq!(value["heuristics"][0]["report_only"], true);
}

#[test]
fn dependency_heuristic_only_json_does_not_promote_to_policy_reason() {
    let tarball = package_tarball(
        r#"{
            "name":"create-example",
            "version":"1.2.3",
            "bin":{"create-example":"bin/create.js"},
            "dependencies":{"left-pad":"1.3.0"}
        }"#,
    );
    let cli = cli(&["safe-npx", "--json", "--decision", "allow", "inspect", "create-example@1.2.3"]);
    let report = build(&cli, &resolver_with(tarball));
    let json = render_report(&cli, &report, None);
    let value: Value = serde_json::from_str(&json).expect("json should parse");

    assert_eq!(value["decision"], "allow");
    assert_eq!(value["required_next_action"], "none");
    let expected_reasons: Value = serde_json::from_str(r#"["caller_requested_allow"]"#).expect("reasons");
    assert_eq!(value["reasons"], expected_reasons);
    assert!(value["policy"]["findings"].as_array().unwrap().is_empty());
    assert_eq!(value["heuristics"][0]["kind"], "dependency_declarations_present");
    assert_eq!(value["heuristics"][0]["report_only"], true);
}

#[test]
fn rendering_redacts_the_given_home_directory() {
    let cli = cli(&["safe-npx", "--dry-run", "create-example@1.2.3", "--", "--out", "/srv/alice/project"]);
    let report = build(&cli, &registry_failure_resolver());
    let with_home = render_report(&cli, &report, Some("/srv/alice"));
    assert!(with_home.contains("--out <home>/project"));
    assert!(!with_home.contains("/srv/alice"));
    let without_home = render_report(&cli, &report, None);
    assert!(without_home.contains("--out /srv/alice/project"));
}
