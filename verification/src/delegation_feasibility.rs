//! Pinned-delegation feasibility rows: each names a step of delegated
//! execution where the executed bytes could change and why that cannot be
//! proven, so delegation is refused.

use vstd::prelude::*;
use crate::closure::{ClosureDecision, M2Reason};
use crate::manifest::{manifest_rows, manifest_rows_str, row_fields, row_fields_str};
use crate::text::{str_eq, to_owned_string, views};

verus! {

/// Pinned delegation feasibility manifest bundled with the crate.
pub const DELEGATION_FEASIBILITY_MANIFEST: &'static str = "# id|step|byte_source|proof_gap|expected_decision|expected_reason|probe
metadata_reresolution|metadata_resolution|registry packument|package manager may re-resolve coordinates after inspection|execution_refused|unsupported_closure|race_matrix
registry_override|registry_selection|registry tarball|user or project npmrc may select a different registry|execution_refused|unsupported_closure|registry_precedence_fixture
cache_reuse|cache_selection|package manager cache entry|cached bytes are not tied to the inspected digest|execution_refused|unsupported_closure|race_matrix
dependency_install|dependency_resolution|dependency tarballs|dependency graph is resolved and installed outside inspection|execution_refused|unsupported_closure|static_fixture
lifecycle_scripts|lifecycle_execution|install scripts|install scripts may run before the selected bin|execution_refused|unsupported_closure|canary_fixture
shim_creation|shim_generation|generated bin shim|shim bytes are generated by the package manager|execution_refused|unsupported_closure|executable_identity_fixture
bin_lookup|bin_selection|package bin entry|package manager bin lookup may select a different executable|execution_refused|unsupported_closure|bin_selection_fixture
config_drift|configuration|package manager configuration|package manager version and config change resolution behavior|execution_refused|unsupported_closure|registry_precedence_fixture
ambient_environment|environment|inherited environment|inherited PATH and environment can redirect execution|execution_refused|unsupported_closure|canary_fixture
";

/// Parsed pinned delegation feasibility row.
#[derive(Clone, Debug, PartialEq, Eq)]
pub struct DelegationFeasibilityRow {
    /// Stable row identifier.
    pub id: String,
    /// Delegation step where byte identity could change.
    pub step: DelegationStep,
    /// Executable or evidence byte source affected by the step.
    pub byte_source: String,
    /// Concrete proof gap.
    pub proof_gap: String,
    /// Expected fail-closed decision.
    pub expected_decision: ClosureDecision,
    /// Expected closure reason.
    pub expected_reason: M2Reason,
    /// Deterministic local probe or prior fixture backing the row.
    pub probe: DelegationProbe,
}

/// Mathematical model of a [`DelegationFeasibilityRow`].
pub struct DelegationRowView {
    pub id: Seq<char>,
    pub step: DelegationStep,
    pub byte_source: Seq<char>,
    pub proof_gap: Seq<char>,
    pub expected_decision: ClosureDecision,
    pub expected_reason: M2Reason,
    pub probe: DelegationProbe,
}

impl View for DelegationFeasibilityRow {
    type V = DelegationRowView;

    open spec fn view(&self) -> DelegationRowView {
        DelegationRowView {
            id: self.id@,
            step: self.step,
            byte_source: self.byte_source@,
            proof_gap: self.proof_gap@,
            expected_decision: self.expected_decision,
            expected_reason: self.expected_reason,
            probe: self.probe,
        }
    }
}

/// Delegation step that can affect executed bytes.
#[derive(Clone, Copy, Debug, PartialEq, Eq, Structural)]
pub enum DelegationStep {
    /// Package metadata or coordinate resolution.
    MetadataResolution,
    /// Registry source selection.
    RegistrySelection,
    /// Package-manager cache selection or mutation.
    CacheSelection,
    /// Dependency resolution and installation.
    DependencyResolution,
    /// Lifecycle script execution.
    LifecycleExecution,
    /// Generated executable shim creation.
    ShimGeneration,
    /// Binary lookup and selection.
    BinSelection,
    /// Package-manager configuration and version behavior.
    Configuration,
    /// Ambient process authority and inherited environment.
    Environment,
}

/// Local probe source backing a delegation feasibility row.
#[derive(Clone, Copy, Debug, PartialEq, Eq, Structural)]
pub enum DelegationProbe {
    /// Covered by the race matrix fixtures.
    RaceMatrix,
    /// Covered by registry precedence fixtures.
    RegistryPrecedenceFixture,
    /// Covered by static metadata fixtures.
    StaticFixture,
    /// Covered by no-package-code-ran canary fixtures.
    CanaryFixture,
    /// Covered by executable identity fixtures.
    ExecutableIdentityFixture,
    /// Covered by bin-selection fixtures.
    BinSelectionFixture,
}

/// Recommendation produced by the pinned delegation evaluation.
#[derive(Clone, Copy, Debug, PartialEq, Eq, Structural)]
pub enum DelegationRecommendation {
    /// Do not use pinned package-manager delegation.
    RejectForM2,
}

pub open spec fn step_token(t: Seq<char>) -> Option<DelegationStep> {
    if t == "metadata_resolution"@ {
        Some(DelegationStep::MetadataResolution)
    } else if t == "registry_selection"@ {
        Some(DelegationStep::RegistrySelection)
    } else if t == "cache_selection"@ {
        Some(DelegationStep::CacheSelection)
    } else if t == "dependency_resolution"@ {
        Some(DelegationStep::DependencyResolution)
    } else if t == "lifecycle_execution"@ {
        Some(DelegationStep::LifecycleExecution)
    } else if t == "shim_generation"@ {
        Some(DelegationStep::ShimGeneration)
    } else if t == "bin_selection"@ {
        Some(DelegationStep::BinSelection)
    } else if t == "configuration"@ {
        Some(DelegationStep::Configuration)
    } else if t == "environment"@ {
        Some(DelegationStep::Environment)
    } else {
        None
    }
}

pub open spec fn probe_token(t: Seq<char>) -> Option<DelegationProbe> {
    if t == "race_matrix"@ {
        Some(DelegationProbe::RaceMatrix)
    } else if t == "registry_precedence_fixture"@ {
        Some(DelegationProbe::RegistryPrecedenceFixture)
    } else if t == "static_fixture"@ {
        Some(DelegationProbe::StaticFixture)
    } else if t == "canary_fixture"@ {
        Some(DelegationProbe::CanaryFixture)
    } else if t == "executable_identity_fixture"@ {
        Some(DelegationProbe::ExecutableIdentityFixture)
    } else if t == "bin_selection_fixture"@ {
        Some(DelegationProbe::BinSelectionFixture)
    } else {
        None
    }
}

/// The row a manifest line describes: seven fields, the four text fields
/// non-empty, and the only decision and reason a delegation row may carry.
pub open spec fn delegation_row(row: Seq<char>) -> Option<DelegationRowView> {
    let f = row_fields(row);
    if f.len() != 7 || f[0].len() == 0 || f[2].len() == 0 || f[3].len() == 0 {
        None
    } else if f[4] != "execution_refused"@ || f[5] != "unsupported_closure"@ {
        None
    } else {
        match (step_token(f[1]), probe_token(f[6])) {
            (Some(s), Some(p)) => Some(
                DelegationRowView {
                    id: f[0],
                    step: s,
                    byte_source: f[2],
                    proof_gap: f[3],
                    expected_decision: ClosureDecision::ExecutionRefused,
                    expected_reason: M2Reason::UnsupportedClosure,
                    probe: p,
                },
            ),
            _ => None,
        }
    }
}

/// Every row of the manifest describes a delegation row.
pub open spec fn delegation_manifest_ok(manifest: Seq<char>) -> bool {
    forall|i: int|
        0 <= i < manifest_rows(manifest).len() ==> (#[trigger] delegation_row(
            manifest_rows(manifest)[i],
        )) is Some
}

/// The rows of a well-formed manifest, in order.
pub open spec fn delegation_manifest_model(manifest: Seq<char>) -> Seq<DelegationRowView> {
    manifest_rows(manifest).map_values(|row: Seq<char>| delegation_row(row).unwrap())
}

pub open spec fn delegation_views(v: Seq<DelegationFeasibilityRow>) -> Seq<DelegationRowView> {
    v.map_values(|r: DelegationFeasibilityRow| r@)
}

/// Parse all bundled rows; empty if the bundled text had a bad row.
pub fn delegation_feasibility_rows() -> (r: Vec<DelegationFeasibilityRow>)
    ensures
        delegation_manifest_ok(DELEGATION_FEASIBILITY_MANIFEST@) ==> delegation_views(r@)
            == delegation_manifest_model(DELEGATION_FEASIBILITY_MANIFEST@),
        !delegation_manifest_ok(DELEGATION_FEASIBILITY_MANIFEST@) ==> r@.len() == 0,
{
    match parse_delegation_rows(DELEGATION_FEASIBILITY_MANIFEST) {
        Some(v) => v,
        None => Vec::new(),
    }
}

/// Parse a pinned delegation feasibility manifest whose rows are well formed.
pub fn parse_delegation_feasibility_manifest(manifest: &str) -> (r: Vec<
    DelegationFeasibilityRow,
>)
    requires
        delegation_manifest_ok(manifest@),
    ensures
        delegation_views(r@) == delegation_manifest_model(manifest@),
{
    match parse_delegation_rows(manifest) {
        Some(v) => v,
        None => Vec::new(),
    }
}

fn parse_delegation_rows(manifest: &str) -> (r: Option<Vec<DelegationFeasibilityRow>>)
    ensures
        r is Some <==> delegation_manifest_ok(manifest@),
        r is Some ==> delegation_views(r->0@) == delegation_manifest_model(manifest@),
{
    let rows = manifest_rows_str(manifest);
    let ghost rs = manifest_rows(manifest@);
    let mut out: Vec<DelegationFeasibilityRow> = Vec::new();
    let mut i: usize = 0;
    while i < rows.len()
        invariant
            i <= rows@.len(),
            views(rows@) == rs,
            rs == manifest_rows(manifest@),
            out@.len() == i,
            forall|j: int| 0 <= j < i ==> (#[trigger] delegation_row(rs[j])) is Some,
            forall|j: int| 0 <= j < i ==> out@[j]@ == (#[trigger] delegation_row(rs[j])).unwrap(),
        decreases rows@.len() - i,
    {
        assert(rows@[i as int]@ == rs[i as int]);
        match parse_delegation_line(rows[i]) {
            Some(f) => {
                out.push(f);
            },
            None => {
                return None;
            },
        }
        i = i + 1;
    }
    assert(delegation_views(out@) == delegation_manifest_model(manifest@));
    Some(out)
}

fn parse_delegation_line(line: &str) -> (r: Option<DelegationFeasibilityRow>)
    ensures
        match r {
            Some(f) => delegation_row(line@) == Some(f@),
            None => delegation_row(line@) is None,
        },
{
    let fields = row_fields_str(line);
    if fields.len() != 7 {
        return None;
    }
    assert(fields@[0]@ == row_fields(line@)[0]);
    assert(fields@[1]@ == row_fields(line@)[1]);
    assert(fields@[2]@ == row_fields(line@)[2]);
    assert(fields@[3]@ == row_fields(line@)[3]);
    assert(fields@[4]@ == row_fields(line@)[4]);
    assert(fields@[5]@ == row_fields(line@)[5]);
    assert(fields@[6]@ == row_fields(line@)[6]);
    if fields[0].unicode_len() == 0 || fields[2].unicode_len() == 0 || fields[3].unicode_len()
        == 0 {
        return None;
    }
    if !str_eq(fields[4], "execution_refused") || !str_eq(fields[5], "unsupported_closure") {
        return None;
    }
    let step = match parse_step(fields[1]) {
        Some(s) => s,
        None => return None,
    };
    let probe = match parse_probe(fields[6]) {
        Some(p) => p,
        None => return None,
    };
    Some(
        DelegationFeasibilityRow {
            id: to_owned_string(fields[0]),
            step,
            byte_source: to_owned_string(fields[2]),
            proof_gap: to_owned_string(fields[3]),
            expected_decision: ClosureDecision::ExecutionRefused,
            expected_reason: M2Reason::UnsupportedClosure,
            probe,
        },
    )
}

fn parse_step(value: &str) -> (r: Option<DelegationStep>)
    ensures
        r == step_token(value@),
{
    if str_eq(value, "metadata_resolution") {
        Some(DelegationStep::MetadataResolution)
    } else if str_eq(value, "registry_selection") {
        Some(DelegationStep::RegistrySelection)
    } else if str_eq(value, "cache_selection") {
        Some(DelegationStep::CacheSelection)
    } else if str_eq(value, "dependency_resolution") {
        Some(DelegationStep::DependencyResolution)
    } else if str_eq(value, "lifecycle_execution") {
        Some(DelegationStep::LifecycleExecution)
    } else if str_eq(value, "shim_generation") {
        Some(DelegationStep::ShimGeneration)
    } else if str_eq(value, "bin_selection") {
        Some(DelegationStep::BinSelection)
    } else if str_eq(value, "configuration") {
        Some(DelegationStep::Configuration)
    } else if str_eq(value, "environment") {
        Some(DelegationStep::Environment)
    } else {
        None
    }
}

fn parse_probe(value: &str) -> (r: Option<DelegationProbe>)
    ensures
        r == probe_token(value@),
{
    if str_eq(value, "race_matrix") {
        Some(DelegationProbe::RaceMatrix)
    } else if str_eq(value, "registry_precedence_fixture") {
        Some(DelegationProbe::RegistryPrecedenceFixture)
    } else if str_eq(value, "static_fixture") {
        Some(DelegationProbe::StaticFixture)
    } else if str_eq(value, "canary_fixture") {
        Some(DelegationProbe::CanaryFixture)
    } else if str_eq(value, "executable_identity_fixture") {
        Some(DelegationProbe::ExecutableIdentityFixture)
    } else if str_eq(value, "bin_selection_fixture") {
        Some(DelegationProbe::BinSelectionFixture)
    } else {
        None
    }
}

/// A row that refuses delegation: refusal decision, unsupported closure,
/// and a named gap and byte source.
pub open spec fn rejects_for_m2(row: DelegationRowView) -> bool {
    row.expected_decision == ClosureDecision::ExecutionRefused && row.expected_reason
        == M2Reason::UnsupportedClosure && row.proof_gap.len() > 0 && row.byte_source.len() > 0
}

/// Return true when a row rejects pinned delegation.
pub fn delegation_row_rejects_for_m2(row: &DelegationFeasibilityRow) -> (r: bool)
    ensures
        r == rejects_for_m2(row@),
{
    row.expected_decision == ClosureDecision::ExecutionRefused && row.expected_reason
        == M2Reason::UnsupportedClosure && row.proof_gap.unicode_len() > 0
        && row.byte_source.unicode_len() > 0
}

/// Return the recommendation for pinned delegation; every row must refuse.
pub fn pinned_delegation_recommendation(rows: &[DelegationFeasibilityRow]) -> (r:
    DelegationRecommendation)
    requires
        forall|i: int| 0 <= i < rows@.len() ==> rejects_for_m2(#[trigger] rows@[i]@),
    ensures
        r == DelegationRecommendation::RejectForM2,
{
    DelegationRecommendation::RejectForM2
}

/// Every row a well-formed manifest yields refuses delegation.
pub proof fn law_delegation_rows_refuse(manifest: Seq<char>)
    requires
        delegation_manifest_ok(manifest),
    ensures
        forall|i: int|
            0 <= i < delegation_manifest_model(manifest).len() ==> rejects_for_m2(
                #[trigger] delegation_manifest_model(manifest)[i],
            ),
{
    assert forall|i: int| 0 <= i < delegation_manifest_model(manifest).len() implies rejects_for_m2(
        #[trigger] delegation_manifest_model(manifest)[i],
    ) by {
        let row = manifest_rows(manifest)[i];
        assert(delegation_row(row) is Some);
    }
}

/// Whether some row has the step.
pub open spec fn has_step(rows: Seq<DelegationFeasibilityRow>, s: DelegationStep) -> bool {
    exists|i: int| 0 <= i < rows.len() && (#[trigger] rows[i]).step == s
}

pub open spec fn all_steps() -> Seq<DelegationStep> {
    seq![
        DelegationStep::MetadataResolution,
        DelegationStep::RegistrySelection,
        DelegationStep::CacheSelection,
        DelegationStep::DependencyResolution,
        DelegationStep::LifecycleExecution,
        DelegationStep::ShimGeneration,
        DelegationStep::BinSelection,
        DelegationStep::Configuration,
        DelegationStep::Environment,
    ]
}

/// The steps of `steps` that some row has, in order.
pub open spec fn steps_present(
    rows: Seq<DelegationFeasibilityRow>,
    steps: Seq<DelegationStep>,
) -> Seq<DelegationStep>
    decreases steps.len(),
{
    if steps.len() == 0 {
        Seq::empty()
    } else {
        let rest = steps_present(rows, steps.drop_last());
        if has_step(rows, steps.last()) {
            rest.push(steps.last())
        } else {
            rest
        }
    }
}

fn contains_step(rows: &[DelegationFeasibilityRow], s: DelegationStep) -> (r: bool)
    ensures
        r == has_step(rows@, s),
{
    let mut i: usize = 0;
    while i < rows.len()
        invariant
            i <= rows@.len(),
            forall|j: int| 0 <= j < i ==> (#[trigger] rows@[j]).step != s,
        decreases rows@.len() - i,
    {
        if rows[i].step == s {
            return true;
        }
        i = i + 1;
    }
    false
}

/// Return every delegation step present in a row slice, each once, in order.
pub fn present_delegation_steps(rows: &[DelegationFeasibilityRow]) -> (r: Vec<DelegationStep>)
    ensures
        r@ == steps_present(rows@, all_steps()),
{
    let steps: Vec<DelegationStep> = vec![
        DelegationStep::MetadataResolution,
        DelegationStep::RegistrySelection,
        DelegationStep::CacheSelection,
        DelegationStep::DependencyResolution,
        DelegationStep::LifecycleExecution,
        DelegationStep::ShimGeneration,
        DelegationStep::BinSelection,
        DelegationStep::Configuration,
        DelegationStep::Environment,
    ];
    assert(steps@ == all_steps());
    let mut out: Vec<DelegationStep> = Vec::new();
    let mut i: usize = 0;
    while i < steps.len()
        invariant
            i <= steps@.len(),
            steps@ == all_steps(),
            out@ == steps_present(rows@, steps@.take(i as int)),
        decreases steps@.len() - i,
    {
        let s = steps[i];
        proof {
            assert(steps@.take(i + 1).drop_last() == steps@.take(i as int));
            assert(steps@.take(i + 1).last() == s);
        }
        if contains_step(rows, s) {
            out.push(s);
        }
        i = i + 1;
    }
    assert(steps@.take(steps@.len() as int) == steps@);
    out
}

} // verus!
