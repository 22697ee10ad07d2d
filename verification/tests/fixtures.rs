use safe_npx::contracts::{CommandIntent, M1Reason, PackageSpec, PackageSpecParse};
use safe_npx::fixtures::{fixtures_by_kind, m1_fixtures, parse_m1_fixture_manifest, M1Fixture};
use safe_npx::inspect::{inspect_with_probe, NetworkProbe};
use safe_npx::parser::parse_command_intent;

#[derive(Default)]
struct CountingProbe {
    registry_calls: usize,
    tarball_calls: usize,
}

impl NetworkProbe for CountingProbe {
    fn resolve_metadata(&mut self, _package_spec: &PackageSpec) {
        self.registry_calls += 1;
    }

    fn download_tarball(&mut self, _package_spec: &PackageSpec) {
        self.tarball_calls += 1;
    }
}

fn assert_no_network_for_raw_spec(raw: &str) {
    let intent: CommandIntent = parse_command_intent(raw, Vec::new());
    let mut probe = CountingProbe::default();

    inspect_with_probe(&intent, &mut probe);

    assert_eq!(probe.registry_calls, 0, "{raw}");
    assert_eq!(probe.tarball_calls, 0, "{raw}");
}

fn expected_reason(fixture: &M1Fixture) -> Option<M1Reason> {
    match fixture.expected_reason.as_deref() {
        Some("unsupported_spec") => Some(M1Reason::UnsupportedSpec),
        Some("malformed_spec") => Some(M1Reason::MalformedSpec),
        Some("registry_error") => Some(M1Reason::RegistryError),
        Some("missing_package") => Some(M1Reason::MissingPackage),
        Some("missing_version") => Some(M1Reason::MissingVersion),
        Some("integrity_mismatch") => Some(M1Reason::IntegrityMismatch),
        _ => None,
    }
}

fn parser_exit_code(parse: &PackageSpecParse) -> i32 {
    match parse {
        PackageSpecParse::Supported(_) => 0,
        PackageSpecParse::Unsupported(_) | PackageSpecParse::Malformed(_) => 2,
    }
}

fn assert_supported_fixture_spec(fixture: &M1Fixture) {
    let intent = parse_command_intent(&fixture.raw_spec, fixture.forwarded_args.clone());

    assert!(matches!(intent.package_spec, PackageSpecParse::Supported(_)), "{}", fixture.id);
}

fn assert_seeded_failure_outcome(
    fixture: &M1Fixture,
    expected_state: &str,
    expected_exit_code: i32,
    expected_sentinel: &str,
) {
    let outcome = fixture
        .seeded_failure_outcome()
        .expect("registry and artifact fixtures seed outcomes");

    assert_eq!(outcome.state, expected_state, "{}", fixture.id);
    assert_eq!(outcome.reason, fixture.expected_reason, "{}", fixture.id);
    assert_eq!(outcome.exit_code, expected_exit_code, "{}", fixture.id);
    assert_eq!(outcome.exit_code, fixture.expected_exit_code, "{}", fixture.id);
    assert_eq!(outcome.sentinel, expected_sentinel, "{}", fixture.id);
    assert_eq!(outcome.sentinel, fixture.sentinel, "{}", fixture.id);
    assert!(expected_reason(fixture).is_some(), "{}", fixture.id);
}

#[test]
fn parser_fixtures_are_consumed_by_parser() {
    let parser = fixtures_by_kind("parser");
    assert!(!parser.is_empty());
    for fixture in parser {
        let intent = parse_command_intent(&fixture.raw_spec, fixture.forwarded_args.clone());

        match (&fixture.expected_state[..], &intent.package_spec) {
            ("supported", PackageSpecParse::Supported(_)) => {
                assert_eq!(intent.forwarded_args, fixture.forwarded_args, "{}", fixture.id);
            }
            ("unsupported", PackageSpecParse::Unsupported(unsupported)) => {
                assert_eq!(Some(unsupported.reason.clone()), expected_reason(&fixture), "{}", fixture.id);
                assert!(intent.forwarded_args.is_empty(), "{}", fixture.id);
            }
            ("malformed", PackageSpecParse::Malformed(malformed)) => {
                assert_eq!(Some(malformed.reason.clone()), expected_reason(&fixture), "{}", fixture.id);
                assert!(intent.forwarded_args.is_empty(), "{}", fixture.id);
            }
            _ => panic!("fixture state did not match parser result: {}", fixture.id),
        }
        assert_eq!(parser_exit_code(&intent.package_spec), fixture.expected_exit_code, "{}", fixture.id);
    }
}

#[test]
fn no_network_fixtures_cover_malformed_and_unsupported_specs() {
    let no_network = m1_fixtures()
        .into_iter()
        .filter(M1Fixture::expects_no_network)
        .collect::<Vec<_>>();

    assert!(no_network.iter().any(|fixture| fixture.expected_state == "malformed"));
    assert!(no_network.iter().any(|fixture| fixture.expected_state == "unsupported"));
    for fixture in no_network {
        assert_no_network_for_raw_spec(&fixture.raw_spec);
    }
}

#[test]
fn registry_failure_fixtures_are_consumed() {
    let registry = fixtures_by_kind("registry");

    assert!(registry.iter().any(|fixture| fixture.id == "registry_error"));
    assert!(registry.iter().any(|fixture| fixture.id == "missing_package"));
    assert!(registry.iter().any(|fixture| fixture.id == "missing_version"));
    for fixture in registry {
        assert_supported_fixture_spec(&fixture);
        assert_seeded_failure_outcome(&fixture, "inspection_error", 3, "no_execution");
    }
}

#[test]
fn artifact_failure_fixtures_are_consumed() {
    let artifact = fixtures_by_kind("artifact");

    assert!(artifact.iter().any(|fixture| fixture.id == "integrity_mismatch"));
    for fixture in artifact {
        assert_supported_fixture_spec(&fixture);
        assert_seeded_failure_outcome(&fixture, "deny", 4, "no_execution");
    }
}

#[test]
fn fixture_rows_split_forwarded_args_on_whitespace() {
    let fixtures = parse_m1_fixture_manifest(
        "a|parser|create-example@1.2.3|supported||0|  --template\treact  x |none\nb|parser|x@1.0.0|supported||0||none",
    );

    assert_eq!(fixtures[0].forwarded_args, ["--template", "react", "x"]);
    assert_eq!(fixtures[0].expected_reason, None);
    assert!(fixtures[1].forwarded_args.is_empty());
    assert!(fixtures[0].is_parser_fixture());
    assert!(fixtures[0].seeded_failure_outcome().is_none());
}

#[test]
fn malformed_specs_do_not_reach_network_hooks() {
    for raw in ["", "@scope/", "create-example@", "@/pkg@1.2.3"] {
        assert_no_network_for_raw_spec(raw);
    }
}

#[test]
fn unsupported_specs_do_not_reach_network_hooks() {
    for raw in [
        "create-example",
        "create-example@latest",
        "create-example@^1.2.3",
        "github:user/repo",
        "./local-package",
        "C:tmp@1.2.3",
        "https://example.test/pkg.tgz",
        "alias@npm:create-example@1.2.3",
        "npm exec -- create-example@1.2.3",
        "create-example@1.2.3 other@2.0.0",
    ] {
        assert_no_network_for_raw_spec(raw);
    }
}

#[test]
fn supported_specs_enter_network_hooks() {
    let intent = parse_command_intent("create-example@1.2.3", Vec::new());
    let mut probe = CountingProbe::default();

    inspect_with_probe(&intent, &mut probe);

    assert_eq!(probe.registry_calls, 1);
    assert_eq!(probe.tarball_calls, 1);
}

/// Probe that records the hooks it receives, in order.
#[derive(Default)]
struct RecordingProbe {
    calls: Vec<String>,
}

impl NetworkProbe for RecordingProbe {
    fn resolve_metadata(&mut self, package_spec: &PackageSpec) {
        self.calls.push(format!("metadata {}", package_spec.raw));
    }

    fn download_tarball(&mut self, package_spec: &PackageSpec) {
        self.calls.push(format!("tarball {}", package_spec.raw));
    }
}

#[test]
fn supported_specs_reach_metadata_then_tarball_once_each() {
    let intent = parse_command_intent("create-example@1.2.3", Vec::new());
    let mut probe = RecordingProbe::default();
    inspect_with_probe(&intent, &mut probe);
    assert_eq!(probe.calls, vec!["metadata create-example@1.2.3", "tarball create-example@1.2.3"]);

    let unsupported = parse_command_intent("create-example@latest", Vec::new());
    let mut untouched = RecordingProbe::default();
    inspect_with_probe(&unsupported, &mut untouched);
    assert!(untouched.calls.is_empty());
}
