use safe_npx::closure::{ClosureDecision, M2Reason};
use safe_npx::contracts::M1Reason;
use safe_npx::race_matrix::{
    parse_race_matrix_fixture_manifest, present_race_classes, race_fixture_outcome_is_consistent,
    race_matrix_fixtures, RaceClass, RaceExecutionDecision, RaceMatrixFixture, RaceReason,
    RaceSentinel,
};

fn fixture(id: &str) -> RaceMatrixFixture {
    race_matrix_fixtures()
        .into_iter()
        .find(|fixture| fixture.id == id)
        .expect("fixture should exist")
}

#[test]
fn bundled_race_matrix_covers_required_classes() {
    let fixtures = race_matrix_fixtures();
    let classes = present_race_classes(&fixtures);

    assert!(classes.contains(&RaceClass::Metadata));
    assert!(classes.contains(&RaceClass::Tag));
    assert!(classes.contains(&RaceClass::Cache));
    assert!(classes.contains(&RaceClass::Tarball));
    assert!(classes.contains(&RaceClass::Delegation));
    assert!(classes.contains(&RaceClass::ExactVersion));
}

#[test]
fn every_race_fixture_has_consistent_outcome() {
    for fixture in race_matrix_fixtures() {
        assert!(race_fixture_outcome_is_consistent(&fixture), "{}", fixture.id);
        assert_eq!(fixture.sentinel, RaceSentinel::NoExecution, "{}", fixture.id);
    }
}

#[test]
fn metadata_changed_after_inspection_fails_closed() {
    let fixture = fixture("metadata_changed");

    assert!(fixture.has_identity_drift());
    assert_eq!(fixture.expected_decision, ClosureDecision::ExecutionRefused);
    assert_eq!(fixture.expected_reason, RaceReason::M2(M2Reason::MetadataChanged));
}

#[test]
fn tag_movement_blocks_latest_but_exact_version_pins() {
    let tag = fixture("tag_moved_latest");
    let exact = fixture("exact_version_pinned");

    assert!(tag.has_identity_drift());
    assert_eq!(tag.execution_decision, RaceExecutionDecision::InspectOnlyAlpha);
    assert_eq!(tag.expected_reason, RaceReason::M2(M2Reason::MetadataChanged));
    assert!(exact.exact_version_is_pinned());
    assert_eq!(exact.expected_decision, ClosureDecision::Ask);
}

#[test]
fn cache_races_fail_closed() {
    for fixture_id in ["cache_poisoned", "stale_cache_reuse"] {
        let fixture = fixture(fixture_id);

        assert_eq!(fixture.race_class, RaceClass::Cache);
        assert_eq!(fixture.expected_reason, RaceReason::M2(M2Reason::CacheIdentityMismatch));
        assert_eq!(fixture.expected_decision, ClosureDecision::ExecutionRefused);
    }
}

#[test]
fn tarball_identity_race_maps_to_integrity_mismatch() {
    let fixture = fixture("tarball_identity_mismatch");

    assert!(fixture.has_identity_drift());
    assert_eq!(fixture.race_class, RaceClass::Tarball);
    assert_eq!(fixture.expected_reason, RaceReason::M1(M1Reason::IntegrityMismatch));
    assert_eq!(fixture.expected_decision, ClosureDecision::Deny);
}

#[test]
fn pinned_delegation_without_byte_proof_fails_closed() {
    let fixture = fixture("pinned_delegation_unproven");

    assert_eq!(fixture.execution_decision, RaceExecutionDecision::PinnedDelegation);
    assert_eq!(fixture.expected_reason, RaceReason::M2(M2Reason::UnsupportedClosure));
    assert_eq!(fixture.expected_decision, ClosureDecision::ExecutionRefused);
}

#[test]
fn present_classes_are_listed_once_in_order() {
    let fixtures = parse_race_matrix_fixture_manifest(
        "# comment\n\ncache_a|cache|direct_extract|a|b|execution_refused|cache_identity_mismatch|no_execution\n\
         tag_a|tag|direct_extract|a|b|execution_refused|metadata_changed|no_execution\r\n\
         cache_b|cache|direct_extract|a|c|execution_refused|cache_identity_mismatch|no_execution\n",
    );

    assert_eq!(fixtures.len(), 3);
    assert_eq!(fixtures[1].prepared, "b");
    assert_eq!(present_race_classes(&fixtures), vec![RaceClass::Tag, RaceClass::Cache]);
}

#[test]
fn inconsistent_outcome_is_reported() {
    let fixtures = parse_race_matrix_fixture_manifest(
        "bad|tarball|direct_extract|a|b|ask|integrity_mismatch|no_execution",
    );

    assert!(!race_fixture_outcome_is_consistent(&fixtures[0]));
}
