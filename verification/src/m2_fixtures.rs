//! Closure fixture manifest: one golden outcome per row, and the check that
//! every required fixture kind has a row.

use vstd::prelude::*;
use crate::closure::{ClosureDecision, M2Reason};
use crate::manifest::{manifest_rows, manifest_rows_str, row_fields, row_fields_str};
use crate::numbers::{parse_i32, parse_i32_model};
use crate::text::{concat2, join, join_strings, str_eq, string_views, to_owned_string, views};

verus! {

/// Closure fixture manifest bundled with the crate.
pub const M2_CLOSURE_FIXTURE_MANIFEST: &'static str = "# id|kind|description|expected_decision|expected_reason|expected_exit_code|sentinel
root_binary|canary|root bin trap must not run during inspection|execution_refused|non_interactive_stop|14|no_execution
root_preinstall|canary|root preinstall trap must not run|execution_refused|lifecycle_script_present|14|no_execution
root_install|canary|root install trap must not run|execution_refused|lifecycle_script_present|14|no_execution
root_postinstall|canary|root postinstall trap must not run|execution_refused|lifecycle_script_present|14|no_execution
dependency_lifecycle|canary|dependency lifecycle trap must not run|execution_refused|unsupported_closure|14|no_execution
generated_shim|canary|generated shim trap must not run|execution_refused|shim_identity_mismatch|14|no_execution
network_attempt|canary|package network attempt must be blocked|execution_refused|unsupported_closure|14|no_execution
bin_ambiguous|bin|two bins and no exact match|unsupported|ambiguous_bin|2|no_execution
bin_missing|bin|package declares no bin|unsupported|missing_bin|2|no_execution
lifecycle_install|lifecycle|install script blocks execution|execution_refused|lifecycle_script_present|14|no_execution
dependency_unverified|dependency|runtime dependency without verified artifact|execution_refused|unsupported_closure|14|no_execution
registry_mismatch|registry|inspection and execution registries differ|execution_refused|registry_precedence_mismatch|14|no_execution
race_metadata_changed|race|metadata changed after inspection|execution_refused|metadata_changed|14|no_execution
cache_identity|cache|prepared cache differs from inspected bytes|execution_refused|cache_identity_mismatch|14|no_execution
shim_identity|shim|generated shim differs from expected bytes|execution_refused|shim_identity_mismatch|14|no_execution
closure_verified|closure|verified closure still needs approval|ask|interactive_approval_required|6|no_execution
";

/// Parsed closure fixture row.
#[derive(Clone, Debug, PartialEq, Eq)]
pub struct M2ClosureFixture {
    /// Stable fixture identifier.
    pub id: String,
    /// Closure fixture kind.
    pub kind: M2FixtureKind,
    /// Human-readable fixture purpose.
    pub description: String,
    /// Expected closure decision.
    pub expected_decision: ClosureDecision,
    /// Expected closure reason.
    pub expected_reason: M2Reason,
    /// Expected process exit code.
    pub expected_exit_code: i32,
    /// Expected sentinel behavior such as `no_execution`.
    pub sentinel: M2Sentinel,
}

/// Mathematical model of an [`M2ClosureFixture`].
pub struct M2FixtureView {
    pub id: Seq<char>,
    pub kind: M2FixtureKind,
    pub description: Seq<char>,
    pub expected_decision: ClosureDecision,
    pub expected_reason: M2Reason,
    pub expected_exit_code: i32,
    pub sentinel: M2Sentinel,
}

impl View for M2ClosureFixture {
    type V = M2FixtureView;

    open spec fn view(&self) -> M2FixtureView {
        M2FixtureView {
            id: self.id@,
            kind: self.kind,
            description: self.description@,
            expected_decision: self.expected_decision,
            expected_reason: self.expected_reason,
            expected_exit_code: self.expected_exit_code,
            sentinel: self.sentinel,
        }
    }
}

impl M2ClosureFixture {
    /// Return true when this fixture must prove no package code ran.
    pub fn expects_no_execution(&self) -> (r: bool)
        ensures
            r == (self.sentinel == M2Sentinel::NoExecution),
    {
        match self.sentinel {
            M2Sentinel::NoExecution => true,
        }
    }
}

/// Closure fixture kind.
#[derive(Clone, Copy, Debug, PartialEq, Eq, Structural)]
pub enum M2FixtureKind {
    /// No-package-code-ran canary fixture.
    Canary,
    /// Bin selection fixture.
    Bin,
    /// Lifecycle-script blocker fixture.
    Lifecycle,
    /// Dependency closure blocker fixture.
    Dependency,
    /// Registry precedence fixture.
    Registry,
    /// Resolution-to-execution race fixture.
    Race,
    /// Cache identity fixture.
    Cache,
    /// Generated shim identity fixture.
    Shim,
    /// General closure proof fixture.
    Closure,
}

/// Expected sentinel behavior for closure fixtures.
#[derive(Clone, Copy, Debug, PartialEq, Eq, Structural)]
pub enum M2Sentinel {
    /// Fixture must not execute package code.
    NoExecution,
}

/// The fixture kinds every closure manifest must cover, in order.
pub open spec fn required_m2_kinds() -> Seq<M2FixtureKind> {
    seq![
        M2FixtureKind::Canary,
        M2FixtureKind::Bin,
        M2FixtureKind::Lifecycle,
        M2FixtureKind::Dependency,
        M2FixtureKind::Registry,
        M2FixtureKind::Race,
        M2FixtureKind::Cache,
        M2FixtureKind::Shim,
        M2FixtureKind::Closure,
    ]
}

/// Manifest token of a fixture kind.
pub open spec fn kind_token(k: M2FixtureKind) -> Seq<char> {
    match k {
        M2FixtureKind::Canary => "canary"@,
        M2FixtureKind::Bin => "bin"@,
        M2FixtureKind::Lifecycle => "lifecycle"@,
        M2FixtureKind::Dependency => "dependency"@,
        M2FixtureKind::Registry => "registry"@,
        M2FixtureKind::Race => "race"@,
        M2FixtureKind::Cache => "cache"@,
        M2FixtureKind::Shim => "shim"@,
        M2FixtureKind::Closure => "closure"@,
    }
}

impl M2FixtureKind {
    /// Return the manifest token for this fixture kind.
    pub fn manifest_token(&self) -> (r: &'static str)
        ensures
            r@ == kind_token(*self),
    {
        match self {
            M2FixtureKind::Canary => "canary",
            M2FixtureKind::Bin => "bin",
            M2FixtureKind::Lifecycle => "lifecycle",
            M2FixtureKind::Dependency => "dependency",
            M2FixtureKind::Registry => "registry",
            M2FixtureKind::Race => "race",
            M2FixtureKind::Cache => "cache",
            M2FixtureKind::Shim => "shim",
            M2FixtureKind::Closure => "closure",
        }
    }
}

pub open spec fn kind_of_token(t: Seq<char>) -> Option<M2FixtureKind> {
    if t == "canary"@ {
        Some(M2FixtureKind::Canary)
    } else if t == "bin"@ {
        Some(M2FixtureKind::Bin)
    } else if t == "lifecycle"@ {
        Some(M2FixtureKind::Lifecycle)
    } else if t == "dependency"@ {
        Some(M2FixtureKind::Dependency)
    } else if t == "registry"@ {
        Some(M2FixtureKind::Registry)
    } else if t == "race"@ {
        Some(M2FixtureKind::Race)
    } else if t == "cache"@ {
        Some(M2FixtureKind::Cache)
    } else if t == "shim"@ {
        Some(M2FixtureKind::Shim)
    } else if t == "closure"@ {
        Some(M2FixtureKind::Closure)
    } else {
        None
    }
}

/// Closure decision named by a manifest token.
pub open spec fn closure_decision_token(t: Seq<char>) -> Option<ClosureDecision> {
    if t == "allow"@ {
        Some(ClosureDecision::Allow)
    } else if t == "ask"@ {
        Some(ClosureDecision::Ask)
    } else if t == "deny"@ {
        Some(ClosureDecision::Deny)
    } else if t == "unsupported"@ {
        Some(ClosureDecision::Unsupported)
    } else if t == "inspection_error"@ {
        Some(ClosureDecision::InspectionError)
    } else if t == "execution_refused"@ {
        Some(ClosureDecision::ExecutionRefused)
    } else {
        None
    }
}

/// Closure reason named by a manifest token.
pub open spec fn m2_reason_token(t: Seq<char>) -> Option<M2Reason> {
    if t == "interactive_approval_required"@ {
        Some(M2Reason::InteractiveApprovalRequired)
    } else if t == "ambiguous_bin"@ {
        Some(M2Reason::AmbiguousBin)
    } else if t == "missing_bin"@ {
        Some(M2Reason::MissingBin)
    } else if t == "lifecycle_script_present"@ {
        Some(M2Reason::LifecycleScriptPresent)
    } else if t == "unsupported_closure"@ {
        Some(M2Reason::UnsupportedClosure)
    } else if t == "metadata_changed"@ {
        Some(M2Reason::MetadataChanged)
    } else if t == "cache_identity_mismatch"@ {
        Some(M2Reason::CacheIdentityMismatch)
    } else if t == "registry_precedence_mismatch"@ {
        Some(M2Reason::RegistryPrecedenceMismatch)
    } else if t == "shim_identity_mismatch"@ {
        Some(M2Reason::ShimIdentityMismatch)
    } else if t == "non_interactive_stop"@ {
        Some(M2Reason::NonInteractiveStop)
    } else {
        None
    }
}

pub open spec fn m2_sentinel_token(t: Seq<char>) -> Option<M2Sentinel> {
    if t == "no_execution"@ {
        Some(M2Sentinel::NoExecution)
    } else {
        None
    }
}

/// The fixture a row describes: seven fields, non-empty id and
/// description, known tokens and a decimal exit code.
pub open spec fn m2_row(row: Seq<char>) -> Option<M2FixtureView> {
    let f = row_fields(row);
    if f.len() != 7 || f[0].len() == 0 || f[2].len() == 0 {
        None
    } else {
        match (
            kind_of_token(f[1]),
            closure_decision_token(f[3]),
            m2_reason_token(f[4]),
            parse_i32_model(f[5]),
            m2_sentinel_token(f[6]),
        ) {
            (Some(k), Some(d), Some(r), Some(code), Some(s)) => Some(
                M2FixtureView {
                    id: f[0],
                    kind: k,
                    description: f[2],
                    expected_decision: d,
                    expected_reason: r,
                    expected_exit_code: code,
                    sentinel: s,
                },
            ),
            _ => None,
        }
    }
}

/// Every row of the manifest describes a fixture.
pub open spec fn m2_manifest_ok(manifest: Seq<char>) -> bool {
    forall|i: int|
        0 <= i < manifest_rows(manifest).len() ==> (#[trigger] m2_row(manifest_rows(manifest)[i]))
            is Some
}

/// The fixtures of a well-formed manifest, in row order.
pub open spec fn m2_manifest_model(manifest: Seq<char>) -> Seq<M2FixtureView> {
    manifest_rows(manifest).map_values(|row: Seq<char>| m2_row(row).unwrap())
}

pub open spec fn m2_fixture_views(v: Seq<M2ClosureFixture>) -> Seq<M2FixtureView> {
    v.map_values(|f: M2ClosureFixture| f@)
}

/// Parse all bundled closure fixtures; empty if the bundled text had a bad row.
pub fn m2_closure_fixtures() -> (r: Vec<M2ClosureFixture>)
    ensures
        m2_manifest_ok(M2_CLOSURE_FIXTURE_MANIFEST@) ==> m2_fixture_views(r@)
            == m2_manifest_model(M2_CLOSURE_FIXTURE_MANIFEST@),
        !m2_manifest_ok(M2_CLOSURE_FIXTURE_MANIFEST@) ==> r@.len() == 0,
{
    match parse_m2_rows(M2_CLOSURE_FIXTURE_MANIFEST) {
        Some(v) => v,
        None => Vec::new(),
    }
}

/// Parse a closure fixture manifest whose rows are all well formed.
pub fn parse_m2_closure_fixture_manifest(manifest: &str) -> (r: Vec<M2ClosureFixture>)
    requires
        m2_manifest_ok(manifest@),
    ensures
        m2_fixture_views(r@) == m2_manifest_model(manifest@),
{
    match parse_m2_rows(manifest) {
        Some(v) => v,
        None => Vec::new(),
    }
}

fn parse_m2_rows(manifest: &str) -> (r: Option<Vec<M2ClosureFixture>>)
    ensures
        r is Some <==> m2_manifest_ok(manifest@),
        r is Some ==> m2_fixture_views(r->0@) == m2_manifest_model(manifest@),
{
    let rows = manifest_rows_str(manifest);
    let ghost rs = manifest_rows(manifest@);
    let mut out: Vec<M2ClosureFixture> = Vec::new();
    let mut i: usize = 0;
    while i < rows.len()
        invariant
            i <= rows@.len(),
            views(rows@) == rs,
            rs == manifest_rows(manifest@),
            out@.len() == i,
            forall|j: int| 0 <= j < i ==> (#[trigger] m2_row(rs[j])) is Some,
            forall|j: int| 0 <= j < i ==> out@[j]@ == (#[trigger] m2_row(rs[j])).unwrap(),
        decreases rows@.len() - i,
    {
        assert(rows@[i as int]@ == rs[i as int]);
        match parse_m2_fixture_line(rows[i]) {
            Some(f) => {
                out.push(f);
            },
            None => {
                return None;
            },
        }
        i = i + 1;
    }
    assert(m2_fixture_views(out@) == m2_manifest_model(manifest@));
    Some(out)
}

fn parse_m2_fixture_line(line: &str) -> (r: Option<M2ClosureFixture>)
    ensures
        match r {
            Some(f) => m2_row(line@) == Some(f@),
            None => m2_row(line@) is None,
        },
{
    let fields = row_fields_str(line);
    if fields.len() != 7 {
        return None;
    }
    assert(fields@[0]@ == row_fields(line@)[0]);
    assert(fields@[1]@ == row_fields(line@)[1]);
    assert(fields@[2]@ == row_fields(line@)[2]);
    assert(fields@[3]@ == row_fields(line@)[3]);
    assert(fields@[4]@ == row_fields(line@)[4]);
    assert(fields@[5]@ == row_fields(line@)[5]);
    assert(fields@[6]@ == row_fields(line@)[6]);
    if fields[0].unicode_len() == 0 || fields[2].unicode_len() == 0 {
        return None;
    }
    let kind = match parse_kind(fields[1]) {
        Some(k) => k,
        None => return None,
    };
    let expected_decision = match parse_closure_decision(fields[3]) {
        Some(d) => d,
        None => return None,
    };
    let expected_reason = match parse_m2_reason(fields[4]) {
        Some(x) => x,
        None => return None,
    };
    let expected_exit_code = match parse_i32(fields[5]) {
        Some(c) => c,
        None => return None,
    };
    let sentinel = if str_eq(fields[6], "no_execution") {
        M2Sentinel::NoExecution
    } else {
        return None;
    };
    Some(
        M2ClosureFixture {
            id: to_owned_string(fields[0]),
            kind,
            description: to_owned_string(fields[2]),
            expected_decision,
            expected_reason,
            expected_exit_code,
            sentinel,
        },
    )
}

fn parse_kind(value: &str) -> (r: Option<M2FixtureKind>)
    ensures
        r == kind_of_token(value@),
{
    if str_eq(value, "canary") {
        Some(M2FixtureKind::Canary)
    } else if str_eq(value, "bin") {
        Some(M2FixtureKind::Bin)
    } else if str_eq(value, "lifecycle") {
        Some(M2FixtureKind::Lifecycle)
    } else if str_eq(value, "dependency") {
        Some(M2FixtureKind::Dependency)
    } else if str_eq(value, "registry") {
        Some(M2FixtureKind::Registry)
    } else if str_eq(value, "race") {
        Some(M2FixtureKind::Race)
    } else if str_eq(value, "cache") {
        Some(M2FixtureKind::Cache)
    } else if str_eq(value, "shim") {
        Some(M2FixtureKind::Shim)
    } else if str_eq(value, "closure") {
        Some(M2FixtureKind::Closure)
    } else {
        None
    }
}

/// Parse a closure decision token.
pub fn parse_closure_decision(value: &str) -> (r: Option<ClosureDecision>)
    ensures
        r == closure_decision_token(value@),
{
    if str_eq(value, "allow") {
        Some(ClosureDecision::Allow)
    } else if str_eq(value, "ask") {
        Some(ClosureDecision::Ask)
    } else if str_eq(value, "deny") {
        Some(ClosureDecision::Deny)
    } else if str_eq(value, "unsupported") {
        Some(ClosureDecision::Unsupported)
    } else if str_eq(value, "inspection_error") {
        Some(ClosureDecision::InspectionError)
    } else if str_eq(value, "execution_refused") {
        Some(ClosureDecision::ExecutionRefused)
    } else {
        None
    }
}

/// Parse a closure reason token.
pub fn parse_m2_reason(value: &str) -> (r: Option<M2Reason>)
    ensures
        r == m2_reason_token(value@),
{
    if str_eq(value, "interactive_approval_required") {
        Some(M2Reason::InteractiveApprovalRequired)
    } else if str_eq(value, "ambiguous_bin") {
        Some(M2Reason::AmbiguousBin)
    } else if str_eq(value, "missing_bin") {
        Some(M2Reason::MissingBin)
    } else if str_eq(value, "lifecycle_script_present") {
        Some(M2Reason::LifecycleScriptPresent)
    } else if str_eq(value, "unsupported_closure") {
        Some(M2Reason::UnsupportedClosure)
    } else if str_eq(value, "metadata_changed") {
        Some(M2Reason::MetadataChanged)
    } else if str_eq(value, "cache_identity_mismatch") {
        Some(M2Reason::CacheIdentityMismatch)
    } else if str_eq(value, "registry_precedence_mismatch") {
        Some(M2Reason::RegistryPrecedenceMismatch)
    } else if str_eq(value, "shim_identity_mismatch") {
        Some(M2Reason::ShimIdentityMismatch)
    } else if str_eq(value, "non_interactive_stop") {
        Some(M2Reason::NonInteractiveStop)
    } else {
        None
    }
}

/// Whether some fixture has the kind.
pub open spec fn has_kind(fixtures: Seq<M2ClosureFixture>, k: M2FixtureKind) -> bool {
    exists|i: int| 0 <= i < fixtures.len() && (#[trigger] fixtures[i]).kind == k
}

fn contains_kind(fixtures: &[M2ClosureFixture], k: M2FixtureKind) -> (r: bool)
    ensures
        r == has_kind(fixtures@, k),
{
    let mut i: usize = 0;
    while i < fixtures.len()
        invariant
            i <= fixtures@.len(),
            forall|j: int| 0 <= j < i ==> (#[trigger] fixtures@[j]).kind != k,
        decreases fixtures@.len() - i,
    {
        if fixtures[i].kind == k {
            return true;
        }
        i = i + 1;
    }
    false
}

/// The required kinds selected by `present == want`, in order.
pub open spec fn kinds_where(
    fixtures: Seq<M2ClosureFixture>,
    kinds: Seq<M2FixtureKind>,
    want: bool,
) -> Seq<M2FixtureKind>
    decreases kinds.len(),
{
    if kinds.len() == 0 {
        Seq::empty()
    } else {
        let rest = kinds_where(fixtures, kinds.drop_last(), want);
        if has_kind(fixtures, kinds.last()) == want {
            rest.push(kinds.last())
        } else {
            rest
        }
    }
}

fn select_kinds(fixtures: &[M2ClosureFixture], want: bool) -> (r: Vec<M2FixtureKind>)
    ensures
        r@ == kinds_where(fixtures@, required_m2_kinds(), want),
{
    let kinds: Vec<M2FixtureKind> = vec![
        M2FixtureKind::Canary,
        M2FixtureKind::Bin,
        M2FixtureKind::Lifecycle,
        M2FixtureKind::Dependency,
        M2FixtureKind::Registry,
        M2FixtureKind::Race,
        M2FixtureKind::Cache,
        M2FixtureKind::Shim,
        M2FixtureKind::Closure,
    ];
    assert(kinds@ == required_m2_kinds());
    let mut out: Vec<M2FixtureKind> = Vec::new();
    let mut i: usize = 0;
    while i < kinds.len()
        invariant
            i <= kinds@.len(),
            kinds@ == required_m2_kinds(),
            out@ == kinds_where(fixtures@, kinds@.take(i as int), want),
        decreases kinds@.len() - i,
    {
        let k = kinds[i];
        proof {
            assert(kinds@.take(i + 1).drop_last() == kinds@.take(i as int));
            assert(kinds@.take(i + 1).last() == k);
        }
        if contains_kind(fixtures, k) == want {
            out.push(k);
        }
        i = i + 1;
    }
    assert(kinds@.take(kinds@.len() as int) == kinds@);
    out
}

/// Return the fixture kinds present in a fixture slice, each once, in order.
pub fn present_m2_fixture_kinds(fixtures: &[M2ClosureFixture]) -> (r: Vec<M2FixtureKind>)
    ensures
        r@ == kinds_where(fixtures@, required_m2_kinds(), true),
{
    select_kinds(fixtures, true)
}

/// Return required fixture kinds not present in a fixture slice, in order.
pub fn missing_m2_fixture_kinds(fixtures: &[M2ClosureFixture]) -> (r: Vec<M2FixtureKind>)
    ensures
        r@ == kinds_where(fixtures@, required_m2_kinds(), false),
{
    select_kinds(fixtures, false)
}

/// The message that lists missing kinds.
pub open spec fn missing_kinds_message(missing: Seq<M2FixtureKind>) -> Seq<char> {
    "missing required M2 fixture kind(s): "@ + join(missing.map_values(|k| kind_token(k)), ", "@)
        + "; add one manifest row for each missing kind"@
}

/// Return an actionable missing-kind failure message.
pub fn missing_m2_fixture_kinds_message(missing: &[M2FixtureKind]) -> (r: String)
    ensures
        r@ == missing_kinds_message(missing@),
{
    let mut tokens: Vec<String> = Vec::new();
    let mut i: usize = 0;
    while i < missing.len()
        invariant
            i <= missing@.len(),
            string_views(tokens@) == missing@.take(i as int).map_values(|k| kind_token(k)),
        decreases missing@.len() - i,
    {
        let t = to_owned_string(missing[i].manifest_token());
        proof {
            assert(string_views(tokens@.push(t)) =~= string_views(tokens@).push(t@));
            assert(missing@.take(i + 1).map_values(|k| kind_token(k)) =~= missing@.take(
                i as int,
            ).map_values(|k| kind_token(k)).push(kind_token(missing@[i as int])));
        }
        tokens.push(t);
        i = i + 1;
    }
    assert(missing@.take(missing@.len() as int) == missing@);
    let joined = join_strings(&tokens, ", ");
    let head = concat2("missing required M2 fixture kind(s): ", joined.as_str());
    concat2(head.as_str(), "; add one manifest row for each missing kind")
}

/// Every fixture kind reads back from its manifest token.
pub proof fn law_kind_token_round_trip(k: M2FixtureKind)
    ensures
        kind_of_token(kind_token(k)) == Some(k),
{
    reveal_strlit("canary");
    reveal_strlit("bin");
    reveal_strlit("lifecycle");
    reveal_strlit("dependency");
    reveal_strlit("registry");
    reveal_strlit("race");
    reveal_strlit("cache");
    reveal_strlit("shim");
    reveal_strlit("closure");
    assert("canary"@.len() == 6);
    assert("bin"@.len() == 3);
    assert("lifecycle"@.len() == 9);
    assert("dependency"@.len() == 10);
    assert("registry"@.len() == 8);
    assert("race"@.len() == 4 && "race"@[0] == 'r');
    assert("cache"@.len() == 5);
    assert("shim"@.len() == 4 && "shim"@[0] == 's');
    assert("closure"@.len() == 7);
}

} // verus!
