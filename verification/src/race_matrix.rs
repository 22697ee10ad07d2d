//! Resolution-to-execution race fixtures.
//!
//! The race matrix is local fixture data: each row names an identity seen at
//! inspection, the identity prepared for execution, and the outcome that must
//! follow. Nothing here reaches the registry or runs package code.

use vstd::prelude::*;
use crate::closure::{ClosureDecision, M2Reason};
use crate::contracts::M1Reason;
use crate::manifest::{manifest_rows, manifest_rows_str, row_fields, row_fields_str};
use crate::text::{str_eq, to_owned_string, views};

verus! {

/// Race matrix fixture manifest bundled with the crate.
pub const RACE_MATRIX_FIXTURE_MANIFEST: &'static str = "# id|race_class|execution_decision|inspected|prepared|expected_decision|expected_reason|sentinel
metadata_changed|metadata|direct_extract|create-example@1.2.3#meta-a|create-example@1.2.3#meta-b|execution_refused|metadata_changed|no_execution
tag_moved_latest|tag|inspect_only_alpha|create-example@latest=1.2.3|create-example@latest=1.2.4|execution_refused|metadata_changed|no_execution
exact_version_pinned|exact_version|direct_extract|create-example@1.2.3|create-example@1.2.3|ask|interactive_approval_required|no_execution
cache_poisoned|cache|pinned_delegation|sha512-inspected|sha512-poisoned|execution_refused|cache_identity_mismatch|no_execution
stale_cache_reuse|cache|pinned_delegation|sha512-inspected|sha512-stale|execution_refused|cache_identity_mismatch|no_execution
tarball_identity_mismatch|tarball|direct_extract|sha512-registry|sha512-downloaded|deny|integrity_mismatch|no_execution
pinned_delegation_unproven|delegation|pinned_delegation|sha512-inspected|delegated-bytes-unproven|execution_refused|unsupported_closure|no_execution
";

/// Parsed resolution-to-execution race fixture.
#[derive(Clone, Debug, PartialEq, Eq)]
pub struct RaceMatrixFixture {
    /// Stable fixture identifier.
    pub id: String,
    /// Race class represented by the fixture.
    pub race_class: RaceClass,
    /// Execution mechanism decision under evaluation.
    pub execution_decision: RaceExecutionDecision,
    /// Inspected identity token.
    pub inspected: String,
    /// Prepared identity token.
    pub prepared: String,
    /// Expected closure or resolution decision.
    pub expected_decision: ClosureDecision,
    /// Expected stable reason.
    pub expected_reason: RaceReason,
    /// Expected sentinel behavior.
    pub sentinel: RaceSentinel,
}

/// Mathematical model of a [`RaceMatrixFixture`].
pub struct RaceFixtureView {
    pub id: Seq<char>,
    pub race_class: RaceClass,
    pub execution_decision: RaceExecutionDecision,
    pub inspected: Seq<char>,
    pub prepared: Seq<char>,
    pub expected_decision: ClosureDecision,
    pub expected_reason: RaceReason,
    pub sentinel: RaceSentinel,
}

impl View for RaceMatrixFixture {
    type V = RaceFixtureView;

    open spec fn view(&self) -> RaceFixtureView {
        RaceFixtureView {
            id: self.id@,
            race_class: self.race_class,
            execution_decision: self.execution_decision,
            inspected: self.inspected@,
            prepared: self.prepared@,
            expected_decision: self.expected_decision,
            expected_reason: self.expected_reason,
            sentinel: self.sentinel,
        }
    }
}

impl RaceMatrixFixture {
    /// Return true when the fixture models identity drift.
    pub fn has_identity_drift(&self) -> (r: bool)
        ensures
            r == (self.inspected@ != self.prepared@),
    {
        !str_eq(self.inspected.as_str(), self.prepared.as_str())
    }

    /// Return true when exact-version execution remains pinned.
    pub fn exact_version_is_pinned(&self) -> (r: bool)
        ensures
            r == (self.race_class == RaceClass::ExactVersion && self.inspected@
                == self.prepared@),
    {
        self.race_class == RaceClass::ExactVersion && !self.has_identity_drift()
    }
}

/// Resolution-to-execution race class.
#[derive(Clone, Copy, Debug, PartialEq, Eq, Structural)]
pub enum RaceClass {
    /// Registry metadata changed after inspection.
    Metadata,
    /// Floating dist-tag moved after inspection.
    Tag,
    /// Cache contents or cache key identity mismatched.
    Cache,
    /// Tarball bytes differed from registry integrity.
    Tarball,
    /// Delegated execution cannot prove it will run inspected bytes.
    Delegation,
    /// Exact-version path is pinned and does not re-resolve.
    ExactVersion,
}

/// Execution mechanism decision covered by a race fixture.
#[derive(Clone, Copy, Debug, PartialEq, Eq, Structural)]
pub enum RaceExecutionDecision {
    /// Direct execution from verified extracted bytes.
    DirectExtract,
    /// Delegation to another tool with pinned identity requirements.
    PinnedDelegation,
    /// Inspect-only alpha mode.
    InspectOnlyAlpha,
}

/// Stable race reason spanning closure and resolution outcomes.
#[derive(Clone, Copy, Debug, PartialEq, Eq, Structural)]
pub enum RaceReason {
    /// Closure proof reason.
    M2(M2Reason),
    /// Artifact verification reason.
    M1(M1Reason),
}

/// Expected sentinel behavior for race fixtures.
#[derive(Clone, Copy, Debug, PartialEq, Eq, Structural)]
pub enum RaceSentinel {
    /// Fixture must not execute package code.
    NoExecution,
}

pub open spec fn race_class_token(t: Seq<char>) -> Option<RaceClass> {
    if t == "metadata"@ {
        Some(RaceClass::Metadata)
    } else if t == "tag"@ {
        Some(RaceClass::Tag)
    } else if t == "cache"@ {
        Some(RaceClass::Cache)
    } else if t == "tarball"@ {
        Some(RaceClass::Tarball)
    } else if t == "delegation"@ {
        Some(RaceClass::Delegation)
    } else if t == "exact_version"@ {
        Some(RaceClass::ExactVersion)
    } else {
        None
    }
}

pub open spec fn execution_decision_token(t: Seq<char>) -> Option<RaceExecutionDecision> {
    if t == "direct_extract"@ {
        Some(RaceExecutionDecision::DirectExtract)
    } else if t == "pinned_delegation"@ {
        Some(RaceExecutionDecision::PinnedDelegation)
    } else if t == "inspect_only_alpha"@ {
        Some(RaceExecutionDecision::InspectOnlyAlpha)
    } else {
        None
    }
}

pub open spec fn race_decision_token(t: Seq<char>) -> Option<ClosureDecision> {
    if t == "ask"@ {
        Some(ClosureDecision::Ask)
    } else if t == "deny"@ {
        Some(ClosureDecision::Deny)
    } else if t == "execution_refused"@ {
        Some(ClosureDecision::ExecutionRefused)
    } else {
        None
    }
}

pub open spec fn race_reason_token(t: Seq<char>) -> Option<RaceReason> {
    if t == "interactive_approval_required"@ {
        Some(RaceReason::M2(M2Reason::InteractiveApprovalRequired))
    } else if t == "metadata_changed"@ {
        Some(RaceReason::M2(M2Reason::MetadataChanged))
    } else if t == "cache_identity_mismatch"@ {
        Some(RaceReason::M2(M2Reason::CacheIdentityMismatch))
    } else if t == "unsupported_closure"@ {
        Some(RaceReason::M2(M2Reason::UnsupportedClosure))
    } else if t == "integrity_mismatch"@ {
        Some(RaceReason::M1(M1Reason::IntegrityMismatch))
    } else {
        None
    }
}

pub open spec fn race_sentinel_token(t: Seq<char>) -> Option<RaceSentinel> {
    if t == "no_execution"@ {
        Some(RaceSentinel::NoExecution)
    } else {
        None
    }
}

/// The fixture a row describes: eight fields, non-empty id and identities,
/// every token known.
pub open spec fn race_row(row: Seq<char>) -> Option<RaceFixtureView> {
    let f = row_fields(row);
    if f.len() != 8 || f[0].len() == 0 || f[3].len() == 0 || f[4].len() == 0 {
        None
    } else {
        match (
            race_class_token(f[1]),
            execution_decision_token(f[2]),
            race_decision_token(f[5]),
            race_reason_token(f[6]),
            race_sentinel_token(f[7]),
        ) {
            (Some(c), Some(e), Some(d), Some(r), Some(s)) => Some(
                RaceFixtureView {
                    id: f[0],
                    race_class: c,
                    execution_decision: e,
                    inspected: f[3],
                    prepared: f[4],
                    expected_decision: d,
                    expected_reason: r,
                    sentinel: s,
                },
            ),
            _ => None,
        }
    }
}

/// Every row of the manifest describes a fixture.
pub open spec fn race_manifest_ok(manifest: Seq<char>) -> bool {
    forall|i: int|
        0 <= i < manifest_rows(manifest).len() ==> (#[trigger] race_row(
            manifest_rows(manifest)[i],
        )) is Some
}

/// The fixtures of a well-formed manifest, in row order.
pub open spec fn race_manifest_model(manifest: Seq<char>) -> Seq<RaceFixtureView> {
    manifest_rows(manifest).map_values(|row: Seq<char>| race_row(row).unwrap())
}

pub open spec fn race_views(v: Seq<RaceMatrixFixture>) -> Seq<RaceFixtureView> {
    v.map_values(|f: RaceMatrixFixture| f@)
}

/// Parse bundled race matrix fixtures; empty if the bundled text had a bad row.
pub fn race_matrix_fixtures() -> (r: Vec<RaceMatrixFixture>)
    ensures
        race_manifest_ok(RACE_MATRIX_FIXTURE_MANIFEST@) ==> race_views(r@) == race_manifest_model(
            RACE_MATRIX_FIXTURE_MANIFEST@,
        ),
        !race_manifest_ok(RACE_MATRIX_FIXTURE_MANIFEST@) ==> r@.len() == 0,
{
    match parse_rows(RACE_MATRIX_FIXTURE_MANIFEST) {
        Some(v) => v,
        None => Vec::new(),
    }
}

/// Parse a race matrix fixture manifest whose rows are all well formed.
pub fn parse_race_matrix_fixture_manifest(manifest: &str) -> (r: Vec<RaceMatrixFixture>)
    requires
        race_manifest_ok(manifest@),
    ensures
        race_views(r@) == race_manifest_model(manifest@),
{
    match parse_rows(manifest) {
        Some(v) => v,
        None => Vec::new(),
    }
}

/// Parse every row; `None` exactly when some row is not a fixture.
fn parse_rows(manifest: &str) -> (r: Option<Vec<RaceMatrixFixture>>)
    ensures
        r is Some <==> race_manifest_ok(manifest@),
        r is Some ==> race_views(r->0@) == race_manifest_model(manifest@),
{
    let rows = manifest_rows_str(manifest);
    let ghost rs = manifest_rows(manifest@);
    let mut out: Vec<RaceMatrixFixture> = Vec::new();
    let mut i: usize = 0;
    while i < rows.len()
        invariant
            i <= rows@.len(),
            views(rows@) == rs,
            rs == manifest_rows(manifest@),
            out@.len() == i,
            forall|j: int| 0 <= j < i ==> (#[trigger] race_row(rs[j])) is Some,
            forall|j: int| 0 <= j < i ==> out@[j]@ == (#[trigger] race_row(rs[j])).unwrap(),
        decreases rows@.len() - i,
    {
        assert(rows@[i as int]@ == rs[i as int]);
        match parse_race_fixture_line(rows[i]) {
            Some(f) => {
                out.push(f);
            },
            None => {
                return None;
            },
        }
        i = i + 1;
    }
    assert(race_views(out@) == race_manifest_model(manifest@));
    Some(out)
}

/// Parse one race fixture row.
fn parse_race_fixture_line(line: &str) -> (r: Option<RaceMatrixFixture>)
    ensures
        match r {
            Some(f) => race_row(line@) == Some(f@),
            None => race_row(line@) is None,
        },
{
    let fields = row_fields_str(line);
    if fields.len() != 8 {
        return None;
    }
    assert(fields@[0]@ == row_fields(line@)[0]);
    assert(fields@[3]@ == row_fields(line@)[3]);
    assert(fields@[4]@ == row_fields(line@)[4]);
    assert(fields@[1]@ == row_fields(line@)[1]);
    assert(fields@[2]@ == row_fields(line@)[2]);
    assert(fields@[5]@ == row_fields(line@)[5]);
    assert(fields@[6]@ == row_fields(line@)[6]);
    assert(fields@[7]@ == row_fields(line@)[7]);
    if fields[0].unicode_len() == 0 || fields[3].unicode_len() == 0 || fields[4].unicode_len()
        == 0 {
        return None;
    }
    let race_class = match parse_race_class(fields[1]) {
        Some(c) => c,
        None => return None,
    };
    let execution_decision = match parse_execution_decision(fields[2]) {
        Some(e) => e,
        None => return None,
    };
    let expected_decision = match parse_decision(fields[5]) {
        Some(d) => d,
        None => return None,
    };
    let expected_reason = match parse_race_reason(fields[6]) {
        Some(x) => x,
        None => return None,
    };
    let sentinel = match parse_sentinel(fields[7]) {
        Some(s) => s,
        None => return None,
    };
    Some(
        RaceMatrixFixture {
            id: to_owned_string(fields[0]),
            race_class,
            execution_decision,
            inspected: to_owned_string(fields[3]),
            prepared: to_owned_string(fields[4]),
            expected_decision,
            expected_reason,
            sentinel,
        },
    )
}

fn parse_race_class(value: &str) -> (r: Option<RaceClass>)
    ensures
        r == race_class_token(value@),
{
    if str_eq(value, "metadata") {
        Some(RaceClass::Metadata)
    } else if str_eq(value, "tag") {
        Some(RaceClass::Tag)
    } else if str_eq(value, "cache") {
        Some(RaceClass::Cache)
    } else if str_eq(value, "tarball") {
        Some(RaceClass::Tarball)
    } else if str_eq(value, "delegation") {
        Some(RaceClass::Delegation)
    } else if str_eq(value, "exact_version") {
        Some(RaceClass::ExactVersion)
    } else {
        None
    }
}

fn parse_execution_decision(value: &str) -> (r: Option<RaceExecutionDecision>)
    ensures
        r == execution_decision_token(value@),
{
    if str_eq(value, "direct_extract") {
        Some(RaceExecutionDecision::DirectExtract)
    } else if str_eq(value, "pinned_delegation") {
        Some(RaceExecutionDecision::PinnedDelegation)
    } else if str_eq(value, "inspect_only_alpha") {
        Some(RaceExecutionDecision::InspectOnlyAlpha)
    } else {
        None
    }
}

fn parse_decision(value: &str) -> (r: Option<ClosureDecision>)
    ensures
        r == race_decision_token(value@),
{
    if str_eq(value, "ask") {
        Some(ClosureDecision::Ask)
    } else if str_eq(value, "deny") {
        Some(ClosureDecision::Deny)
    } else if str_eq(value, "execution_refused") {
        Some(ClosureDecision::ExecutionRefused)
    } else {
        None
    }
}

fn parse_race_reason(value: &str) -> (r: Option<RaceReason>)
    ensures
        r == race_reason_token(value@),
{
    if str_eq(value, "interactive_approval_required") {
        Some(RaceReason::M2(M2Reason::InteractiveApprovalRequired))
    } else if str_eq(value, "metadata_changed") {
        Some(RaceReason::M2(M2Reason::MetadataChanged))
    } else if str_eq(value, "cache_identity_mismatch") {
        Some(RaceReason::M2(M2Reason::CacheIdentityMismatch))
    } else if str_eq(value, "unsupported_closure") {
        Some(RaceReason::M2(M2Reason::UnsupportedClosure))
    } else if str_eq(value, "integrity_mismatch") {
        Some(RaceReason::M1(M1Reason::IntegrityMismatch))
    } else {
        None
    }
}

fn parse_sentinel(value: &str) -> (r: Option<RaceSentinel>)
    ensures
        r == race_sentinel_token(value@),
{
    if str_eq(value, "no_execution") {
        Some(RaceSentinel::NoExecution)
    } else {
        None
    }
}

/// Whether some fixture has the class.
pub open spec fn has_race_class(fixtures: Seq<RaceMatrixFixture>, c: RaceClass) -> bool {
    exists|i: int| 0 <= i < fixtures.len() && (#[trigger] fixtures[i]).race_class == c
}

pub open spec fn class_if(fixtures: Seq<RaceMatrixFixture>, c: RaceClass) -> Seq<RaceClass> {
    if has_race_class(fixtures, c) {
        seq![c]
    } else {
        Seq::empty()
    }
}

/// The classes present, each once, in declaration order.
pub open spec fn present_race_classes_model(fixtures: Seq<RaceMatrixFixture>) -> Seq<RaceClass> {
    class_if(fixtures, RaceClass::Metadata) + class_if(fixtures, RaceClass::Tag) + class_if(
        fixtures,
        RaceClass::Cache,
    ) + class_if(fixtures, RaceClass::Tarball) + class_if(fixtures, RaceClass::Delegation)
        + class_if(fixtures, RaceClass::ExactVersion)
}

fn contains_class(fixtures: &[RaceMatrixFixture], c: RaceClass) -> (r: bool)
    ensures
        r == has_race_class(fixtures@, c),
{
    let mut i: usize = 0;
    while i < fixtures.len()
        invariant
            i <= fixtures@.len(),
            forall|j: int| 0 <= j < i ==> (#[trigger] fixtures@[j]).race_class != c,
        decreases fixtures@.len() - i,
    {
        if fixtures[i].race_class == c {
            return true;
        }
        i = i + 1;
    }
    false
}

fn push_if(out: &mut Vec<RaceClass>, fixtures: &[RaceMatrixFixture], c: RaceClass)
    ensures
        final(out)@ == old(out)@ + class_if(fixtures@, c),
{
    if contains_class(fixtures, c) {
        out.push(c);
        assert(final(out)@ == old(out)@ + seq![c]);
    } else {
        assert(old(out)@ + Seq::<RaceClass>::empty() == old(out)@);
    }
}

/// Return the race classes present in a fixture slice, each once, in order.
pub fn present_race_classes(fixtures: &[RaceMatrixFixture]) -> (r: Vec<RaceClass>)
    ensures
        r@ == present_race_classes_model(fixtures@),
{
    let mut out: Vec<RaceClass> = Vec::new();
    push_if(&mut out, fixtures, RaceClass::Metadata);
    push_if(&mut out, fixtures, RaceClass::Tag);
    push_if(&mut out, fixtures, RaceClass::Cache);
    push_if(&mut out, fixtures, RaceClass::Tarball);
    push_if(&mut out, fixtures, RaceClass::Delegation);
    push_if(&mut out, fixtures, RaceClass::ExactVersion);
    assert(out@ == Seq::<RaceClass>::empty() + present_race_classes_model(fixtures@));
    out
}

/// The outcome a race class must carry: closure refusal for drift, denial
/// for tarball mismatch, an approval prompt for the pinned exact version.
pub open spec fn race_outcome_consistent(c: RaceClass, r: RaceReason, d: ClosureDecision) -> bool {
    match (c, r) {
        (RaceClass::Metadata, RaceReason::M2(M2Reason::MetadataChanged))
        | (RaceClass::Tag, RaceReason::M2(M2Reason::MetadataChanged)) => d
            == ClosureDecision::ExecutionRefused,
        (RaceClass::Cache, RaceReason::M2(M2Reason::CacheIdentityMismatch)) => d
            == ClosureDecision::ExecutionRefused,
        (RaceClass::Tarball, RaceReason::M1(M1Reason::IntegrityMismatch)) => d
            == ClosureDecision::Deny,
        (RaceClass::Delegation, RaceReason::M2(M2Reason::UnsupportedClosure)) => d
            == ClosureDecision::ExecutionRefused,
        (RaceClass::ExactVersion, RaceReason::M2(M2Reason::InteractiveApprovalRequired)) => d
            == ClosureDecision::Ask,
        _ => false,
    }
}

/// Evaluate whether a fixture carries the expected fail-closed outcome.
pub fn race_fixture_outcome_is_consistent(fixture: &RaceMatrixFixture) -> (r: bool)
    ensures
        r == race_outcome_consistent(
            fixture.race_class,
            fixture.expected_reason,
            fixture.expected_decision,
        ),
{
    let d = fixture.expected_decision;
    match (fixture.race_class, fixture.expected_reason) {
        (RaceClass::Metadata, RaceReason::M2(M2Reason::MetadataChanged))
        | (RaceClass::Tag, RaceReason::M2(M2Reason::MetadataChanged)) => d
            == ClosureDecision::ExecutionRefused,
        (RaceClass::Cache, RaceReason::M2(M2Reason::CacheIdentityMismatch)) => d
            == ClosureDecision::ExecutionRefused,
        (RaceClass::Tarball, RaceReason::M1(M1Reason::IntegrityMismatch)) => d
            == ClosureDecision::Deny,
        (RaceClass::Delegation, RaceReason::M2(M2Reason::UnsupportedClosure)) => d
            == ClosureDecision::ExecutionRefused,
        (RaceClass::ExactVersion, RaceReason::M2(M2Reason::InteractiveApprovalRequired)) => d
            == ClosureDecision::Ask,
        _ => false,
    }
}

} // verus!
