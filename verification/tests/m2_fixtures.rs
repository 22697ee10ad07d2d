use safe_npx::canary::canary_fixtures;
use safe_npx::m2_fixtures::{
    m2_closure_fixtures, missing_m2_fixture_kinds, missing_m2_fixture_kinds_message,
    parse_m2_closure_fixture_manifest, present_m2_fixture_kinds, M2FixtureKind,
};
use std::collections::BTreeSet;

#[test]
fn bundled_m2_manifest_covers_required_kinds() {
    let fixtures = m2_closure_fixtures();
    let missing = missing_m2_fixture_kinds(&fixtures);

    assert!(missing.is_empty(), "{}", missing_m2_fixture_kinds_message(&missing));
}

#[test]
fn every_m2_fixture_has_golden_outcome() {
    for fixture in m2_closure_fixtures() {
        assert!(!fixture.id.is_empty());
        assert!(!fixture.description.is_empty(), "{}", fixture.id);
        assert!(fixture.expected_exit_code >= 0, "{}", fixture.id);
        assert!(fixture.expects_no_execution(), "{}", fixture.id);
        assert_eq!(
            fixture.expected_reason.refusal_decision(),
            fixture.expected_decision,
            "{}",
            fixture.id
        );
    }
}

#[test]
fn missing_fixture_kinds_are_actionable() {
    let fixtures = parse_m2_closure_fixture_manifest(
        "root_binary|canary|only canary|execution_refused|non_interactive_stop|10|no_execution",
    );

    assert_eq!(
        missing_m2_fixture_kinds(&fixtures),
        vec![
            M2FixtureKind::Bin,
            M2FixtureKind::Lifecycle,
            M2FixtureKind::Dependency,
            M2FixtureKind::Registry,
            M2FixtureKind::Race,
            M2FixtureKind::Cache,
            M2FixtureKind::Shim,
            M2FixtureKind::Closure
        ]
    );
    assert_eq!(
        missing_m2_fixture_kinds_message(&missing_m2_fixture_kinds(&fixtures)),
        "missing required M2 fixture kind(s): bin, lifecycle, dependency, registry, race, cache, shim, closure; add one manifest row for each missing kind"
    );
}

#[test]
fn canary_rows_are_tied_to_canary_manifest() {
    let canary_ids = canary_fixtures()
        .into_iter()
        .map(|fixture| fixture.id)
        .collect::<BTreeSet<_>>();

    for fixture in m2_closure_fixtures()
        .into_iter()
        .filter(|fixture| fixture.kind == M2FixtureKind::Canary)
    {
        assert!(canary_ids.contains(&fixture.id), "{}", fixture.id);
    }
}

#[test]
fn manifest_exit_codes_are_parsed_as_integers() {
    let fixtures = parse_m2_closure_fixture_manifest(
        "a|bin|d|unsupported|ambiguous_bin|-2|no_execution\nb|shim|d|execution_refused|shim_identity_mismatch|+7|no_execution",
    );

    assert_eq!(fixtures[0].expected_exit_code, -2);
    assert_eq!(fixtures[1].expected_exit_code, 7);
    assert_eq!(present_m2_fixture_kinds(&fixtures), vec![M2FixtureKind::Bin, M2FixtureKind::Shim]);
    assert_eq!(M2FixtureKind::Dependency.manifest_token(), "dependency");
}

#[test]
fn empty_missing_list_still_names_the_remedy() {
    assert_eq!(
        missing_m2_fixture_kinds_message(&[]),
        "missing required M2 fixture kind(s): ; add one manifest row for each missing kind"
    );
}
