use safe_npx::canary::{
    assert_bundled_canary_inspection_is_safe, canary_fixtures, inspect_canary_fixture,
    inspect_canary_fixture_with, CanaryFixture, CanaryNetworkProbe, CanaryTrapKind,
    StaticCanaryInspector,
};
use std::collections::HashSet;

/// A sentinel root under which nothing exists.
fn sentinel_root() -> String {
    "/nonexistent/safe-npx-canary-root".to_string()
}

fn fixture_by_kind(kind: CanaryTrapKind) -> CanaryFixture {
    canary_fixtures()
        .into_iter()
        .find(|fixture| fixture.trap_kind == kind)
        .expect("fixture kind should be present")
}

fn assert_trap_kind_does_not_create_sentinel(kind: CanaryTrapKind) {
    let root = sentinel_root();
    let fixture = fixture_by_kind(kind);
    let inspection = inspect_canary_fixture(&fixture, &root);

    assert!(inspection.sentinel_absent(), "{}", fixture.id);
}

#[test]
fn bundled_canary_manifest_covers_m2_traps() {
    let fixtures = canary_fixtures();
    let ids = fixtures
        .iter()
        .map(|fixture| fixture.id.as_str())
        .collect::<HashSet<_>>();
    let kinds = fixtures
        .iter()
        .map(|fixture| &fixture.trap_kind)
        .collect::<HashSet<_>>();

    assert_eq!(fixtures.len(), 7);
    assert!(ids.contains("root_binary"));
    assert!(ids.contains("root_preinstall"));
    assert!(ids.contains("root_install"));
    assert!(ids.contains("root_postinstall"));
    assert!(ids.contains("dependency_lifecycle"));
    assert!(ids.contains("generated_shim"));
    assert!(ids.contains("network_attempt"));
    assert!(kinds.contains(&CanaryTrapKind::RootBinary));
    assert!(kinds.contains(&CanaryTrapKind::RootPreinstall));
    assert!(kinds.contains(&CanaryTrapKind::RootInstall));
    assert!(kinds.contains(&CanaryTrapKind::RootPostinstall));
    assert!(kinds.contains(&CanaryTrapKind::DependencyLifecycle));
    assert!(kinds.contains(&CanaryTrapKind::GeneratedShim));
    assert!(kinds.contains(&CanaryTrapKind::NetworkAttempt));
}

#[test]
fn inspect_mode_leaves_all_sentinels_absent() {
    let root = sentinel_root();
    let inspections =
        assert_bundled_canary_inspection_is_safe(&root).expect("no sentinel should be created");

    assert_eq!(inspections.len(), 7);
    for fixture in canary_fixtures() {
        assert!(
            !std::path::Path::new(&fixture.sentinel_path(&root)).exists(),
            "{} sentinel should be absent",
            fixture.id
        );
    }
}

#[test]
fn root_package_binary_trap_cannot_run_during_inspection() {
    assert_trap_kind_does_not_create_sentinel(CanaryTrapKind::RootBinary);
}

#[test]
fn root_lifecycle_traps_cannot_run_during_inspection() {
    assert_trap_kind_does_not_create_sentinel(CanaryTrapKind::RootPreinstall);
    assert_trap_kind_does_not_create_sentinel(CanaryTrapKind::RootInstall);
    assert_trap_kind_does_not_create_sentinel(CanaryTrapKind::RootPostinstall);
}

#[test]
fn dependency_lifecycle_trap_cannot_run_during_inspection() {
    assert_trap_kind_does_not_create_sentinel(CanaryTrapKind::DependencyLifecycle);
}

#[test]
fn generated_shim_trap_cannot_run_during_inspection() {
    assert_trap_kind_does_not_create_sentinel(CanaryTrapKind::GeneratedShim);
}

#[test]
fn network_attempt_is_detected_without_executing_package_code() {
    let root = sentinel_root();
    let fixture = fixture_by_kind(CanaryTrapKind::NetworkAttempt);
    let mut inspector = StaticCanaryInspector;
    let mut network_probe = CanaryNetworkProbe::default();
    let inspection =
        inspect_canary_fixture_with(&mut inspector, &fixture, &root, &mut network_probe);

    assert!(inspection.network_attempt_detected);
    assert_eq!(network_probe.blocked_attempts(), &[fixture.id.clone()]);
    assert!(inspection.sentinel_absent());
}

#[test]
fn sentinel_paths_join_under_the_root() {
    let fixture = fixture_by_kind(CanaryTrapKind::RootBinary);

    assert_eq!(fixture.sentinel_path("/tmp/root"), "/tmp/root/root-binary.sentinel");
    assert_eq!(fixture.sentinel_path("/tmp/root/"), "/tmp/root/root-binary.sentinel");
    assert_eq!(fixture.sentinel_path(""), "root-binary.sentinel");
}

#[test]
fn quiet_traps_record_no_blocked_attempt() {
    let root = sentinel_root();
    let fixture = fixture_by_kind(CanaryTrapKind::GeneratedShim);
    let inspection = inspect_canary_fixture(&fixture, &root);

    assert!(!inspection.network_attempt_detected);
    assert_eq!(inspection.fixture_id, "generated_shim");
}

#[test]
fn canary_manifest_rows_parse_into_fixtures() {
    let fixtures = safe_npx::canary::parse_canary_fixture_manifest(
        "# id|trap_kind|sentinel|network_expectation\nnet|network_attempt|net.sentinel|detected_without_execution\n",
    );
    assert_eq!(fixtures.len(), 1);
    assert_eq!(fixtures[0].id, "net");
    assert_eq!(fixtures[0].trap_kind, CanaryTrapKind::NetworkAttempt);
    assert_eq!(fixtures[0].sentinel, "net.sentinel");
}

/// Inspector that records what it is given and reports a sentinel path
/// chosen by the test.
struct RecordingInspector {
    seen: Vec<(String, String)>,
    sentinel_path: String,
    detect_network: bool,
}

impl safe_npx::canary::CanaryInspector for RecordingInspector {
    fn inspect_fixture(
        &mut self,
        fixture: &CanaryFixture,
        sentinel_root: &str,
        _network_probe: &mut CanaryNetworkProbe,
    ) -> safe_npx::canary::CanaryInspection {
        self.seen.push((fixture.id.clone(), sentinel_root.to_string()));
        safe_npx::canary::CanaryInspection {
            fixture_id: fixture.id.clone(),
            sentinel_path: self.sentinel_path.clone(),
            network_attempt_detected: self.detect_network,
        }
    }
}

fn recording(sentinel_path: &str, detect_network: bool) -> RecordingInspector {
    RecordingInspector { seen: Vec::new(), sentinel_path: sentinel_path.to_string(), detect_network }
}

#[test]
fn harness_stops_at_the_first_fixture_whose_sentinel_exists() {
    let fixtures = canary_fixtures();
    let mut inspector = recording("/", true);
    let result = safe_npx::canary::assert_canary_inspection_leaves_sentinels_absent_with(
        &mut inspector,
        &fixtures,
        "/sentinels",
    );
    assert_eq!(result, Err(format!("{} created sentinel /", fixtures[0].id)));
    assert_eq!(inspector.seen, vec![(fixtures[0].id.clone(), "/sentinels".to_string())]);
}

#[test]
fn harness_passes_each_fixture_once_in_order() {
    let fixtures = canary_fixtures();
    let root = sentinel_root();
    let absent = format!("{root}/never-created.sentinel");
    let mut inspector = recording(&absent, true);
    let result = safe_npx::canary::assert_canary_inspection_leaves_sentinels_absent_with(
        &mut inspector,
        &fixtures,
        &root,
    );
    assert_eq!(result.expect("no sentinel exists").len(), fixtures.len());
    let expected: Vec<(String, String)> = fixtures.iter().map(|f| (f.id.clone(), root.clone())).collect();
    assert_eq!(inspector.seen, expected);
}

#[test]
fn harness_reports_an_undetected_network_attempt_before_the_sentinel() {
    let fixtures: Vec<CanaryFixture> = canary_fixtures()
        .into_iter()
        .filter(|f| f.trap_kind == CanaryTrapKind::NetworkAttempt)
        .collect();
    let mut inspector = recording("/", false);
    let result = safe_npx::canary::assert_canary_inspection_leaves_sentinels_absent_with(
        &mut inspector,
        &fixtures,
        "/sentinels",
    );
    assert_eq!(result, Err("network_attempt network attempt was not detected".to_string()));
}

#[test]
fn fixture_verdicts_name_the_failure() {
    let fixture = fixture_by_kind(CanaryTrapKind::NetworkAttempt);
    let inspection = safe_npx::canary::CanaryInspection {
        fixture_id: fixture.id.clone(),
        sentinel_path: "/root/network-attempt.sentinel".to_string(),
        network_attempt_detected: true,
    };
    assert_eq!(safe_npx::canary::canary_fixture_verdict(&fixture, &inspection, false), None);
    assert_eq!(
        safe_npx::canary::canary_fixture_verdict(&fixture, &inspection, true),
        Some("network_attempt created sentinel /root/network-attempt.sentinel".to_string())
    );
    let undetected = safe_npx::canary::CanaryInspection { network_attempt_detected: false, ..inspection };
    assert_eq!(
        safe_npx::canary::canary_fixture_verdict(&fixture, &undetected, true),
        Some("network_attempt network attempt was not detected".to_string())
    );
}

/// Inspector that blocks every fixture's attempt on the probe it is handed
/// and notes how many blocked attempts that probe already held.
struct ProbeCountingInspector {
    held_on_entry: Vec<usize>,
    sentinel_path: String,
}

impl safe_npx::canary::CanaryInspector for ProbeCountingInspector {
    fn inspect_fixture(
        &mut self,
        fixture: &CanaryFixture,
        _sentinel_root: &str,
        network_probe: &mut CanaryNetworkProbe,
    ) -> safe_npx::canary::CanaryInspection {
        self.held_on_entry.push(network_probe.blocked_attempts().len());
        network_probe.record_blocked_attempt(fixture);
        safe_npx::canary::CanaryInspection {
            fixture_id: fixture.id.clone(),
            sentinel_path: self.sentinel_path.clone(),
            network_attempt_detected: network_probe.blocked_attempt_for(fixture),
        }
    }
}

#[test]
fn harness_shares_one_probe_that_starts_empty() {
    let fixtures = canary_fixtures();
    let root = sentinel_root();
    let mut inspector =
        ProbeCountingInspector { held_on_entry: Vec::new(), sentinel_path: format!("{root}/never-created.sentinel") };
    let result = safe_npx::canary::assert_canary_inspection_leaves_sentinels_absent_with(
        &mut inspector,
        &fixtures,
        &root,
    );
    assert_eq!(result.expect("no sentinel exists").len(), fixtures.len());
    let expected: Vec<usize> = (0..fixtures.len()).collect();
    assert_eq!(inspector.held_on_entry, expected);
}
