use base64::prelude::{Engine as _, BASE64_STANDARD};
use safe_npx::authority_context::AmbientPaths;
use safe_npx::cli::{parse_source_context, Cli, M2RefusalReason};
use safe_npx::contracts::{Decision, SourceContext};
use safe_npx::download::{TarballDownloader, TarballHttpResponse, TarballTransport, TarballTransportError};
use safe_npx::evidence::M1Evidence;
use safe_npx::registry::{NpmMetadataClient, RegistryHttpResponse, RegistryTransport, RegistryTransportError};
use safe_npx::report::{build_report_with_resolver, render_report, run_with_exit_code};
use safe_npx::resolver::RootArtifactResolver;
use sha2::{Digest, Sha512};
use std::cell::RefCell;

struct StubRegistryTransport {
    responses: RefCell<Vec<Result<RegistryHttpResponse, RegistryTransportError>>>,
}

impl RegistryTransport for StubRegistryTransport {
    fn get(&self, _url: &str) -> Result<RegistryHttpResponse, RegistryTransportError> {
        self.responses.borrow_mut().remove(0)
    }
}

struct StubTarballTransport {
    responses: RefCell<Vec<Result<TarballHttpResponse, TarballTransportError>>>,
}

impl TarballTransport for StubTarballTransport {
    fn get_bytes(&self, _url: &str) -> Result<TarballHttpResponse, TarballTransportError> {
        self.responses.borrow_mut().remove(0)
    }
}

type StubResolver = RootArtifactResolver<StubRegistryTransport, StubTarballTransport>;

/// Command-line arguments as `safe-npx` reads them: flags first, then the command.
fn cli(args: &[&str]) -> Cli {
    let mut cli = Cli {
        json: false,
        dry_run: false,
        decision: Decision::Ask,
        m2_refusal: None,
        source_context: SourceContext::Unknown,
        command: Vec::new(),
    };
    let mut i = 1;
    while i < args.len() {
        match args[i] {
            "--json" => cli.json = true,
            "--dry-run" => cli.dry_run = true,
            "--source-context" => {
                i += 1;
                cli.source_context = parse_source_context(args[i]).expect("valid source context");
            }
            "--decision" => {
                i += 1;
                cli.decision = match args[i] {
                    "allow" => Decision::Allow,
                    "deny" => Decision::Deny,
                    _ => Decision::Ask,
                };
            }
            _ => {
                cli.command = args[i..].iter().map(|a| a.to_string()).collect();
                break;
            }
        }
        i += 1;
    }
    cli
}

/// Process directories of a test run.
fn ambient() -> AmbientPaths {
    AmbientPaths {
        cwd: Some("/workspace/project".to_string()),
        home: Some("/Users/alice".to_string()),
        temp_dir: "/tmp".to_string(),
    }
}

fn resolver_with(metadata_body: String, tarball_bytes: Vec<u8>) -> StubResolver {
    RootArtifactResolver::new(
        NpmMetadataClient::public(StubRegistryTransport {
            responses: RefCell::new(vec![Ok(RegistryHttpResponse { status: 200, body: metadata_body })]),
        }),
        TarballDownloader::new(StubTarballTransport {
            responses: RefCell::new(vec![Ok(TarballHttpResponse { status: 200, bytes: tarball_bytes })]),
        }),
    )
}

/// A resolver that no refused spec may reach.
fn offline_resolver() -> StubResolver {
    RootArtifactResolver::new(
        NpmMetadataClient::public(StubRegistryTransport { responses: RefCell::new(Vec::new()) }),
        TarballDownloader::new(StubTarballTransport { responses: RefCell::new(Vec::new()) }),
    )
}

fn verified_resolver(bytes: &[u8]) -> StubResolver {
    resolver_with(metadata_body(&integrity_for(bytes)), bytes.to_vec())
}

fn metadata_body(integrity: &str) -> String {
    format!(
        r#"{{
            "versions": {{
                "1.2.3": {{
                    "version": "1.2.3",
                    "dist": {{
                        "tarball": "https://registry.npmjs.org/create-example/-/create-example-1.2.3.tgz",
                        "integrity": "{}"
                    }}
                }}
            }}
        }}"#,
        integrity
    )
}

fn integrity_for(bytes: &[u8]) -> String {
    format!("sha512-{}", BASE64_STANDARD.encode(Sha512::digest(bytes)))
}

fn run_with_resolver(cli: &Cli, resolver: &StubResolver) -> String {
    let report = build_report_with_resolver(cli, resolver, &ambient());
    render_report(cli, &report, None)
}

/// Run a command whose spec never reaches the registry.
fn run(cli: &Cli) -> String {
    run_with_resolver(cli, &offline_resolver())
}

#[test]
fn parses_default_ask_decision() {
    let cli = cli(&["safe-npx", "create-example@1.2.3"]);

    assert_eq!(cli.raw_package_spec(), "create-example@1.2.3");
    assert_eq!(cli.decision, Decision::Ask);
    assert!(!cli.json);
}

#[test]
fn builds_m1_verified_report() {
    let cli = cli(&["safe-npx", "--decision", "deny", "create-example@1.2.3"]);
    let report = build_report_with_resolver(&cli, &verified_resolver(b"fixture-tarball"), &ambient());

    assert_eq!(report.package_spec, "create-example@1.2.3");
    assert!(matches!(report.intent.package_spec, safe_npx::contracts::PackageSpecParse::Supported(_)));
    assert_eq!(report.recommendation, Decision::Deny);
    assert_eq!(report.status, "m1_evidence");
    assert!(report.note.contains("root artifact only"));
    assert!(matches!(report.m1, M1Evidence::Verified { integrity_status: "verified", .. }));
}

#[test]
fn renders_json_for_agents() {
    let cli = cli(&["safe-npx", "--json", "create-example@1.2.3"]);
    let output = run_with_resolver(&cli, &verified_resolver(b"fixture-tarball"));

    assert!(output.contains("\"package_spec\": \"create-example@1.2.3\""));
    assert!(output.contains("\"state\": \"supported\""));
    assert!(output.contains("\"name\": \"create-example\""));
    assert!(output.contains("\"version\": \"1.2.3\""));
    assert!(output.contains("\"recommendation\": \"ask\""));
    assert!(output.contains("\"state\": \"verified\""));
    assert!(output.contains("\"integrity_status\": \"verified\""));
    assert!(output.contains("\"digest_algorithm\": \"sha512\""));
}

#[test]
fn renders_json_with_forwarded_args_for_agents() {
    let cli = cli(&["safe-npx", "--json", "create-example@1.2.3", "--", "--template", "react"]);
    let output = run_with_resolver(&cli, &verified_resolver(b"fixture-tarball"));

    assert!(output.contains("\"forwarded_args\": ["));
    assert!(output.contains("\"--template\""));
    assert!(output.contains("\"react\""));
}

#[test]
fn renders_json_for_unsupported_specs() {
    let cli = cli(&["safe-npx", "--json", "create-example@next"]);
    let output = run(&cli);

    assert!(output.contains("\"state\": \"unsupported\""));
    assert!(output.contains("\"reason\": \"unsupported_spec\""));
    assert!(output.contains("\"category\": \"version_range\""));
    assert!(output.contains("\"forwarded_args\": []"));
    assert!(output.contains("\"downloaded\": false"));
    assert!(!output.contains("\"execution\""));
}

#[test]
fn renders_json_for_malformed_specs() {
    let cli = cli(&["safe-npx", "--json", "@scope/"]);
    let output = run(&cli);

    assert!(output.contains("\"state\": \"malformed\""));
    assert!(output.contains("\"reason\": \"malformed_spec\""));
    assert!(output.contains("\"raw\": \"@scope/\""));
    assert!(output.contains("\"downloaded\": false"));
    assert!(!output.contains("\"execution\""));
}

#[test]
fn renders_json_for_multi_token_unsupported_specs() {
    let cli = cli(&["safe-npx", "--json", "npm", "exec", "create-example@1.2.3"]);
    let output = run(&cli);

    assert!(output.contains("\"package_spec\": \"npm exec create-example@1.2.3\""));
    assert!(output.contains("\"state\": \"unsupported\""));
    assert!(output.contains("\"category\": \"npm_exec_variant\""));
}

#[test]
fn renders_json_for_flagged_exec_variants() {
    let cases = [
        vec!["safe-npx", "--json", "npm", "exec", "--package", "create-example@1.2.3"],
        vec!["safe-npx", "--json", "npm", "exec", "-c", "create-example@1.2.3 --help"],
        vec!["safe-npx", "--json", "npx", "--yes", "create-example@1.2.3"],
    ];

    for case in cases {
        let cli = cli(&case);
        let output = run(&cli);

        assert!(output.contains("\"state\": \"unsupported\""));
        assert!(output.contains("\"category\": \"npm_exec_variant\""));
        assert!(output.contains("\"downloaded\": false"));
    }
}

#[test]
fn renders_human_scaffold_output() {
    let cli = cli(&["safe-npx", "--decision", "allow", "create-example@1.2.3"]);
    let output = run_with_resolver(&cli, &verified_resolver(b"fixture-tarball"));

    assert!(output.contains("Package: create-example@1.2.3"));
    assert!(output.contains("Parsed: create-example@1.2.3"));
    assert!(output.contains("Recommendation: Allow"));
    assert!(output.contains("M1 evidence: verified"));
    assert!(output.contains("Resolved: create-example@1.2.3"));
    assert!(output.contains("Integrity: verified"));
    assert!(output.contains("This Rust CLI does not execute package code in M1"));
}

#[test]
fn renders_human_refusal_output() {
    let cli = cli(&["safe-npx", "create-example@next"]);
    let output = run(&cli);

    assert!(output.contains("Rejected: create-example@next"));
    assert!(output.contains("Reason: unsupported_spec"));
    assert!(output.contains("Category: version_range"));
    assert!(output.contains("Downloaded: false"));
}

#[test]
fn renders_json_for_integrity_mismatch() {
    let cli = cli(&["safe-npx", "--json", "create-example@1.2.3"]);
    let resolver = resolver_with(metadata_body(&integrity_for(b"different-bytes")), b"fixture-tarball".to_vec());
    let output = run_with_resolver(&cli, &resolver);

    assert!(output.contains("\"recommendation\": \"deny\""));
    assert!(output.contains("\"state\": \"failed\""));
    assert!(output.contains("\"reason\": \"integrity_mismatch\""));
    assert!(output.contains("\"downloaded\": true"));
}

#[test]
fn refusal_fixture_reports_reason_and_exit_code() {
    let mut cli = cli(&["safe-npx", "create-example@1.2.3", "--", "--yes"]);
    cli.m2_refusal = Some(M2RefusalReason::LifecycleScriptPresent);
    let output = run_with_exit_code(&cli, &offline_resolver(), &ambient());

    assert_eq!(output.exit_code, 14);
    assert_eq!(
        output.stdout,
        "Execution refused\nPackage: create-example@1.2.3\nDecision: execution_refused\nReasons: lifecycle_script_present\nRequired next action: inspect_only\nExit code: 14\nNo package code was executed.\n"
    );
}

#[test]
fn refusal_fixture_json_keeps_execution_null() {
    let mut cli = cli(&["safe-npx", "--json", "create-example@1.2.3"]);
    cli.m2_refusal = Some(M2RefusalReason::AmbiguousBin);
    let output = run_with_exit_code(&cli, &offline_resolver(), &ambient());

    assert_eq!(output.exit_code, 2);
    assert_eq!(
        output.stdout,
        "{\n  \"command\": {\n    \"requested\": \"create-example@1.2.3\",\n    \"forwarded_args\": []\n  },\n  \"decision\": \"unsupported\",\n  \"reasons\": [\n    \"ambiguous_bin\"\n  ],\n  \"required_next_action\": \"retry_narrower_command\",\n  \"execution\": null,\n  \"exit_code\": 2\n}"
    );
}
