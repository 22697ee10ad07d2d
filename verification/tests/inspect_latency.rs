use safe_npx::inspect_latency::{
    inspect_latency_evidence, InspectLatencyPhases, InspectLatencyProfile,
    COLD_PUBLIC_PACKAGE_INSPECT_BUDGET_MS, WARM_FIXTURE_INSPECT_BUDGET_MS,
};

#[test]
fn latency_budget_targets_match_m3_milestone() {
    assert_eq!(COLD_PUBLIC_PACKAGE_INSPECT_BUDGET_MS, 5_000);
    assert_eq!(WARM_FIXTURE_INSPECT_BUDGET_MS, 1_000);
}

#[test]
fn phase_evidence_totals_and_classifies_budget() {
    let evidence = inspect_latency_evidence(
        InspectLatencyProfile::WarmFixture,
        InspectLatencyPhases { resolve_ms: 100, download_ms: 50, extract_ms: 25, render_ms: 10 },
    );

    assert_eq!(evidence.total_ms, 185);
    assert!(evidence.within_budget);
    assert!(!evidence.ci_enforced);
    assert_eq!(evidence.budget_ms, WARM_FIXTURE_INSPECT_BUDGET_MS);
    assert!(evidence.note.contains("CI validates"));
}

#[test]
fn cold_public_package_budget_is_not_ci_enforced() {
    let evidence = inspect_latency_evidence(
        InspectLatencyProfile::ColdPublicPackage,
        InspectLatencyPhases { resolve_ms: 4_000, download_ms: 500, extract_ms: 250, render_ms: 50 },
    );

    assert_eq!(evidence.budget_ms, COLD_PUBLIC_PACKAGE_INSPECT_BUDGET_MS);
    assert!(evidence.within_budget);
    assert!(!evidence.ci_enforced);
    assert!(evidence.note.contains("do not enforce in CI"));
}

#[test]
fn over_budget_warm_fixture_is_reported() {
    let evidence = inspect_latency_evidence(
        InspectLatencyProfile::WarmFixture,
        InspectLatencyPhases { resolve_ms: 900, download_ms: 100, extract_ms: 1, render_ms: 0 },
    );

    assert_eq!(evidence.total_ms, 1_001);
    assert!(!evidence.within_budget);
}
