use safe_npx::closure::{ClosureDecision, M2Reason};
use safe_npx::delegation_feasibility::{
    delegation_feasibility_rows, delegation_row_rejects_for_m2,
    parse_delegation_feasibility_manifest, pinned_delegation_recommendation,
    present_delegation_steps, DelegationProbe, DelegationRecommendation, DelegationStep,
};

#[test]
fn bundled_manifest_covers_delegation_byte_change_steps() {
    let rows = delegation_feasibility_rows();
    let steps = present_delegation_steps(&rows);

    for step in [
        DelegationStep::MetadataResolution,
        DelegationStep::RegistrySelection,
        DelegationStep::CacheSelection,
        DelegationStep::DependencyResolution,
        DelegationStep::LifecycleExecution,
        DelegationStep::ShimGeneration,
        DelegationStep::BinSelection,
        DelegationStep::Configuration,
        DelegationStep::Environment,
    ] {
        assert!(steps.contains(&step), "{step:?}");
    }
}

#[test]
fn every_delegation_gap_refuses_without_fallback() {
    for row in delegation_feasibility_rows() {
        assert!(delegation_row_rejects_for_m2(&row), "{}", row.id);
    }
}

#[test]
fn recommendation_rejects_pinned_delegation_for_m2() {
    assert_eq!(
        pinned_delegation_recommendation(&delegation_feasibility_rows()),
        DelegationRecommendation::RejectForM2
    );
}

#[test]
fn probes_are_deterministic_local_fixture_sources() {
    for row in delegation_feasibility_rows() {
        assert!(
            matches!(
                row.probe,
                DelegationProbe::RaceMatrix
                    | DelegationProbe::RegistryPrecedenceFixture
                    | DelegationProbe::StaticFixture
                    | DelegationProbe::CanaryFixture
                    | DelegationProbe::ExecutableIdentityFixture
                    | DelegationProbe::BinSelectionFixture
            ),
            "{}",
            row.id
        );
    }
}

#[test]
fn parsed_row_keeps_fields() {
    let rows = parse_delegation_feasibility_manifest(
        "cache_reuse|cache_selection|cache entry|not tied to digest|execution_refused|unsupported_closure|race_matrix",
    );

    assert_eq!(rows.len(), 1);
    assert_eq!(rows[0].step, DelegationStep::CacheSelection);
    assert_eq!(rows[0].byte_source, "cache entry");
    assert_eq!(rows[0].expected_decision, ClosureDecision::ExecutionRefused);
    assert_eq!(rows[0].expected_reason, M2Reason::UnsupportedClosure);
    assert_eq!(present_delegation_steps(&rows), vec![DelegationStep::CacheSelection]);
}
