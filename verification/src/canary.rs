//! Canary harness showing that inspection runs no package code.
//!
//! Each fixture names a trap (a binary, a lifecycle script, a generated shim,
//! a network attempt) and the sentinel file its payload would create if it
//! ran. Inspection reads only fixture metadata and must leave every sentinel
//! absent; a declared network attempt is recorded as blocked.

use vstd::prelude::*;
use crate::manifest::{manifest_rows, manifest_rows_str, row_fields, row_fields_str};
use crate::text::{concat2, ends_with, has_prefix, has_suffix, starts_with, str_eq, to_owned_string, views};

verus! {

/// Canary fixture manifest bundled with the crate.
pub const CANARY_FIXTURE_MANIFEST: &'static str = "# id|trap_kind|sentinel|network_expectation
root_binary|root_binary|root-binary.sentinel|none
root_preinstall|root_preinstall|root-preinstall.sentinel|none
root_install|root_install|root-install.sentinel|none
root_postinstall|root_postinstall|root-postinstall.sentinel|none
dependency_lifecycle|dependency_lifecycle|dependency-lifecycle.sentinel|none
generated_shim|generated_shim|generated-shim.sentinel|none
network_attempt|network_attempt|network-attempt.sentinel|detected_without_execution
";

/// Trap kind covered by the no-package-code-ran harness.
#[derive(Clone, Copy, Debug, PartialEq, Eq, Hash, Structural)]
pub enum CanaryTrapKind {
    /// Root package binary would run.
    RootBinary,
    /// Root package `preinstall` would run.
    RootPreinstall,
    /// Root package `install` would run.
    RootInstall,
    /// Root package `postinstall` would run.
    RootPostinstall,
    /// Dependency lifecycle script would run.
    DependencyLifecycle,
    /// Generated shim would run.
    GeneratedShim,
    /// Package code would attempt network access.
    NetworkAttempt,
}

/// Network expectation for a canary fixture.
#[derive(Clone, Copy, Debug, PartialEq, Eq, Structural)]
pub enum CanaryNetworkExpectation {
    /// Fixture does not model network behavior.
    NoNetwork,
    /// Inspection detects a network-attempt trap without running package code.
    DetectedWithoutExecution,
}

/// Local trap fixture used by inspection tests.
#[derive(Clone, Debug, PartialEq, Eq)]
pub struct CanaryFixture {
    /// Stable fixture identifier.
    pub id: String,
    /// Trap kind represented by this fixture.
    pub trap_kind: CanaryTrapKind,
    /// Sentinel path relative to the sentinel root.
    pub sentinel: String,
    /// Expected network behavior during inspection.
    pub network_expectation: CanaryNetworkExpectation,
}

/// Mathematical model of a [`CanaryFixture`].
pub struct CanaryFixtureView {
    pub id: Seq<char>,
    pub trap_kind: CanaryTrapKind,
    pub sentinel: Seq<char>,
    pub network_expectation: CanaryNetworkExpectation,
}

impl View for CanaryFixture {
    type V = CanaryFixtureView;

    open spec fn view(&self) -> CanaryFixtureView {
        CanaryFixtureView {
            id: self.id@,
            trap_kind: self.trap_kind,
            sentinel: self.sentinel@,
            network_expectation: self.network_expectation,
        }
    }
}

/// `rel` joined onto `root` as `Path::join` does: an absolute `rel`
/// replaces the root, otherwise one `/` separates them.
pub open spec fn join_path(root: Seq<char>, rel: Seq<char>) -> Seq<char> {
    if has_prefix(rel, seq!['/']) || root.len() == 0 {
        rel
    } else if has_suffix(root, seq!['/']) {
        root + rel
    } else {
        root + seq!['/'] + rel
    }
}

/// Join a relative path onto a root.
pub fn join_path_str(root: &str, rel: &str) -> (r: String)
    ensures
        r@ == join_path(root@, rel@),
{
    proof {
        reveal_strlit("/");
        assert("/"@ == seq!['/']);
    }
    if starts_with(rel, "/") || root.unicode_len() == 0 {
        to_owned_string(rel)
    } else if ends_with(root, "/") {
        concat2(root, rel)
    } else {
        let with_sep = concat2(root, "/");
        concat2(with_sep.as_str(), rel)
    }
}

impl CanaryFixture {
    /// Return the sentinel path of this fixture under a sentinel root.
    pub fn sentinel_path(&self, sentinel_root: &str) -> (r: String)
        ensures
            r@ == join_path(sentinel_root@, self.sentinel@),
    {
        join_path_str(sentinel_root, self.sentinel.as_str())
    }
}

/// Local probe that records blocked canary network attempts.
#[derive(Clone, Debug, PartialEq, Eq)]
pub struct CanaryNetworkProbe {
    blocked_attempts: Vec<String>,
}

impl View for CanaryNetworkProbe {
    type V = Seq<Seq<char>>;

    closed spec fn view(&self) -> Seq<Seq<char>> {
        self.blocked_attempts@.map_values(|s: String| s@)
    }
}

impl Default for CanaryNetworkProbe {
    fn default() -> (r: Self)
        ensures
            r@ == Seq::<Seq<char>>::empty(),
    {
        CanaryNetworkProbe::new()
    }
}

impl CanaryNetworkProbe {
    /// A probe that has blocked nothing yet.
    pub fn new() -> (r: Self)
        ensures
            r@ == Seq::<Seq<char>>::empty(),
    {
        let p = CanaryNetworkProbe { blocked_attempts: Vec::new() };
        assert(p@ =~= Seq::<Seq<char>>::empty());
        p
    }

    /// Record that inspection observed and blocked a network-attempt trap.
    pub fn record_blocked_attempt(&mut self, fixture: &CanaryFixture)
        ensures
            final(self)@ == old(self)@.push(fixture.id@),
    {
        self.blocked_attempts.push(fixture.id.clone());
        assert(self@ =~= old(self)@.push(fixture.id@));
    }

    /// Return true when a fixture's network attempt was blocked by inspection.
    pub fn blocked_attempt_for(&self, fixture: &CanaryFixture) -> (r: bool)
        ensures
            r == self@.contains(fixture.id@),
    {
        let mut i: usize = 0;
        while i < self.blocked_attempts.len()
            invariant
                i <= self.blocked_attempts@.len(),
                self@.len() == self.blocked_attempts@.len(),
                forall|j: int| 0 <= j < i ==> self@[j] != fixture.id@,
            decreases self.blocked_attempts@.len() - i,
        {
            assert(self@[i as int] == self.blocked_attempts@[i as int]@);
            if str_eq(self.blocked_attempts[i].as_str(), fixture.id.as_str()) {
                return true;
            }
            i = i + 1;
        }
        false
    }

    /// Return all blocked canary network attempts, in order.
    pub fn blocked_attempts(&self) -> (r: &[String])
        ensures
            r@.map_values(|s: String| s@) == self@,
    {
        self.blocked_attempts.as_slice()
    }
}

/// Result of inspecting one canary fixture.
#[derive(Clone, Debug, PartialEq, Eq)]
pub struct CanaryInspection {
    /// Fixture that was inspected.
    pub fixture_id: String,
    /// Sentinel path that must remain absent.
    pub sentinel_path: String,
    /// True when inspection observed a declared network-attempt trap.
    pub network_attempt_detected: bool,
}

/// Whether something exists at a path, with `std::path::Path::exists`.
/// Nothing is stated of the result: it is what the file system holds now.
#[verifier::external_body]
fn path_exists(path: &str) -> bool {
    std::path::Path::new(path).exists()
}

impl CanaryInspection {
    /// Return true when the fixture sentinel is absent after inspection.
    pub fn sentinel_absent(&self) -> bool {
        !path_exists(self.sentinel_path.as_str())
    }
}

/// One call received by an inspector: the fixture, the sentinel root, and
/// the blocked attempts the shared probe held when handed over and when
/// handed back.
pub type CanaryCall = (CanaryFixture, Seq<char>, Seq<Seq<char>>, Seq<Seq<char>>);

/// Inspection subject that can be checked against canary fixtures,
/// implemented by callers. An inspector that keeps a record of what it was
/// given (`records_calls`) adds each call to `inspected` as it is made.
pub trait CanaryInspector {
    /// Whether this inspector keeps a record of the calls it receives; one
    /// that does not say so keeps none.
    open spec fn records_calls(&self) -> bool {
        false
    }

    /// The calls received so far, in order, where a record is kept.
    open spec fn inspected(&self) -> Seq<CanaryCall> {
        Seq::empty()
    }

    /// Inspect one fixture while using the provided local network probe.
    fn inspect_fixture(
        &mut self,
        fixture: &CanaryFixture,
        sentinel_root: &str,
        network_probe: &mut CanaryNetworkProbe,
    ) -> (r: CanaryInspection)
        ensures
            final(self).records_calls() == old(self).records_calls(),
            old(self).records_calls() ==> final(self).inspected() == old(self).inspected().push(
                (*fixture, sentinel_root@, old(network_probe)@, final(network_probe)@),
            ),
    ;
}

/// Static inspect-mode subject that reads canary metadata without payloads.
#[derive(Clone, Copy, Debug, Default)]
pub struct StaticCanaryInspector;

impl CanaryInspector for StaticCanaryInspector {
    /// Inspect canary metadata and block declared network-attempt traps.
    fn inspect_fixture(
        &mut self,
        fixture: &CanaryFixture,
        sentinel_root: &str,
        network_probe: &mut CanaryNetworkProbe,
    ) -> (r: CanaryInspection)
        ensures
            final(network_probe)@ == if fixture.network_expectation
                == CanaryNetworkExpectation::DetectedWithoutExecution {
                old(network_probe)@.push(fixture.id@)
            } else {
                old(network_probe)@
            },
            r.fixture_id@ == fixture.id@,
            r.sentinel_path@ == join_path(sentinel_root@, fixture.sentinel@),
            r.network_attempt_detected == final(network_probe)@.contains(fixture.id@),
    {
        if fixture.network_expectation == CanaryNetworkExpectation::DetectedWithoutExecution {
            network_probe.record_blocked_attempt(fixture);
        }
        CanaryInspection {
            fixture_id: fixture.id.clone(),
            sentinel_path: fixture.sentinel_path(sentinel_root),
            network_attempt_detected: network_probe.blocked_attempt_for(fixture),
        }
    }
}

pub open spec fn trap_kind_token(t: Seq<char>) -> Option<CanaryTrapKind> {
    if t == "root_binary"@ {
        Some(CanaryTrapKind::RootBinary)
    } else if t == "root_preinstall"@ {
        Some(CanaryTrapKind::RootPreinstall)
    } else if t == "root_install"@ {
        Some(CanaryTrapKind::RootInstall)
    } else if t == "root_postinstall"@ {
        Some(CanaryTrapKind::RootPostinstall)
    } else if t == "dependency_lifecycle"@ {
        Some(CanaryTrapKind::DependencyLifecycle)
    } else if t == "generated_shim"@ {
        Some(CanaryTrapKind::GeneratedShim)
    } else if t == "network_attempt"@ {
        Some(CanaryTrapKind::NetworkAttempt)
    } else {
        None
    }
}

pub open spec fn network_expectation_token(t: Seq<char>) -> Option<CanaryNetworkExpectation> {
    if t == "none"@ {
        Some(CanaryNetworkExpectation::NoNetwork)
    } else if t == "detected_without_execution"@ {
        Some(CanaryNetworkExpectation::DetectedWithoutExecution)
    } else {
        None
    }
}

/// The fixture a row describes: four fields with known tokens.
pub open spec fn canary_row(row: Seq<char>) -> Option<CanaryFixtureView> {
    let f = row_fields(row);
    if f.len() != 4 {
        None
    } else {
        match (trap_kind_token(f[1]), network_expectation_token(f[3])) {
            (Some(k), Some(n)) => Some(
                CanaryFixtureView { id: f[0], trap_kind: k, sentinel: f[2], network_expectation: n },
            ),
            _ => None,
        }
    }
}

/// Every row of the manifest describes a fixture.
pub open spec fn canary_manifest_ok(manifest: Seq<char>) -> bool {
    forall|i: int|
        0 <= i < manifest_rows(manifest).len() ==> (#[trigger] canary_row(
            manifest_rows(manifest)[i],
        )) is Some
}

/// The fixtures of a well-formed manifest, in row order.
pub open spec fn canary_manifest_model(manifest: Seq<char>) -> Seq<CanaryFixtureView> {
    manifest_rows(manifest).map_values(|row: Seq<char>| canary_row(row).unwrap())
}

pub open spec fn canary_views(v: Seq<CanaryFixture>) -> Seq<CanaryFixtureView> {
    v.map_values(|f: CanaryFixture| f@)
}

/// Parse all bundled canary fixtures; empty if the bundled text had a bad row.
pub fn canary_fixtures() -> (r: Vec<CanaryFixture>)
    ensures
        canary_manifest_ok(CANARY_FIXTURE_MANIFEST@) ==> canary_views(r@) == canary_manifest_model(
            CANARY_FIXTURE_MANIFEST@,
        ),
        !canary_manifest_ok(CANARY_FIXTURE_MANIFEST@) ==> r@.len() == 0,
{
    match parse_canary_rows(CANARY_FIXTURE_MANIFEST) {
        Some(v) => v,
        None => Vec::new(),
    }
}

/// Parse a canary fixture manifest whose rows are all well formed.
pub fn parse_canary_fixture_manifest(manifest: &str) -> (r: Vec<CanaryFixture>)
    requires
        canary_manifest_ok(manifest@),
    ensures
        canary_views(r@) == canary_manifest_model(manifest@),
{
    match parse_canary_rows(manifest) {
        Some(v) => v,
        None => Vec::new(),
    }
}

fn parse_canary_rows(manifest: &str) -> (r: Option<Vec<CanaryFixture>>)
    ensures
        r is Some <==> canary_manifest_ok(manifest@),
        r is Some ==> canary_views(r->0@) == canary_manifest_model(manifest@),
{
    let rows = manifest_rows_str(manifest);
    let ghost rs = manifest_rows(manifest@);
    let mut out: Vec<CanaryFixture> = Vec::new();
    let mut i: usize = 0;
    while i < rows.len()
        invariant
            i <= rows@.len(),
            views(rows@) == rs,
            rs == manifest_rows(manifest@),
            out@.len() == i,
            forall|j: int| 0 <= j < i ==> (#[trigger] canary_row(rs[j])) is Some,
            forall|j: int| 0 <= j < i ==> out@[j]@ == (#[trigger] canary_row(rs[j])).unwrap(),
        decreases rows@.len() - i,
    {
        assert(rows@[i as int]@ == rs[i as int]);
        match parse_canary_fixture_line(rows[i]) {
            Some(f) => {
                out.push(f);
            },
            None => {
                return None;
            },
        }
        i = i + 1;
    }
    assert(canary_views(out@) == canary_manifest_model(manifest@));
    Some(out)
}

fn parse_canary_fixture_line(line: &str) -> (r: Option<CanaryFixture>)
    ensures
        match r {
            Some(f) => canary_row(line@) == Some(f@),
            None => canary_row(line@) is None,
        },
{
    let fields = row_fields_str(line);
    if fields.len() != 4 {
        return None;
    }
    assert(fields@[0]@ == row_fields(line@)[0]);
    assert(fields@[1]@ == row_fields(line@)[1]);
    assert(fields@[2]@ == row_fields(line@)[2]);
    assert(fields@[3]@ == row_fields(line@)[3]);
    let trap_kind = match parse_trap_kind(fields[1]) {
        Some(k) => k,
        None => return None,
    };
    let network_expectation = if str_eq(fields[3], "none") {
        CanaryNetworkExpectation::NoNetwork
    } else if str_eq(fields[3], "detected_without_execution") {
        CanaryNetworkExpectation::DetectedWithoutExecution
    } else {
        return None;
    };
    Some(
        CanaryFixture {
            id: to_owned_string(fields[0]),
            trap_kind,
            sentinel: to_owned_string(fields[2]),
            network_expectation,
        },
    )
}

fn parse_trap_kind(value: &str) -> (r: Option<CanaryTrapKind>)
    ensures
        r == trap_kind_token(value@),
{
    if str_eq(value, "root_binary") {
        Some(CanaryTrapKind::RootBinary)
    } else if str_eq(value, "root_preinstall") {
        Some(CanaryTrapKind::RootPreinstall)
    } else if str_eq(value, "root_install") {
        Some(CanaryTrapKind::RootInstall)
    } else if str_eq(value, "root_postinstall") {
        Some(CanaryTrapKind::RootPostinstall)
    } else if str_eq(value, "dependency_lifecycle") {
        Some(CanaryTrapKind::DependencyLifecycle)
    } else if str_eq(value, "generated_shim") {
        Some(CanaryTrapKind::GeneratedShim)
    } else if str_eq(value, "network_attempt") {
        Some(CanaryTrapKind::NetworkAttempt)
    } else {
        None
    }
}

/// Inspect one canary fixture with the static inspector and a fresh probe.
pub fn inspect_canary_fixture(fixture: &CanaryFixture, sentinel_root: &str) -> (r:
    CanaryInspection)
    ensures
        r.fixture_id@ == fixture.id@,
        r.sentinel_path@ == join_path(sentinel_root@, fixture.sentinel@),
        r.network_attempt_detected == (fixture.network_expectation
            == CanaryNetworkExpectation::DetectedWithoutExecution),
{
    let mut inspector = StaticCanaryInspector;
    let mut network_probe = CanaryNetworkProbe::new();
    let r = inspector.inspect_fixture(fixture, sentinel_root, &mut network_probe);
    proof {
        if fixture.network_expectation == CanaryNetworkExpectation::DetectedWithoutExecution {
            assert(network_probe@[0] == fixture.id@);
        } else {
            assert(network_probe@.len() == 0);
        }
    }
    r
}

/// Inspect one canary fixture with an explicit inspection subject.
pub fn inspect_canary_fixture_with<I: CanaryInspector>(
    inspector: &mut I,
    fixture: &CanaryFixture,
    sentinel_root: &str,
    network_probe: &mut CanaryNetworkProbe,
) -> (r: CanaryInspection)
    ensures
        final(inspector).records_calls() == old(inspector).records_calls(),
        old(inspector).records_calls() ==> final(inspector).inspected() == old(inspector).inspected().push(
            (*fixture, sentinel_root@, old(network_probe)@, final(network_probe)@),
        ),
{
    inspector.inspect_fixture(fixture, sentinel_root, network_probe)
}

/// The failure, if any, of one inspected fixture: an undetected declared
/// network attempt comes first, then a sentinel that exists.
pub open spec fn canary_verdict(f: CanaryFixtureView, i: CanaryInspection, sentinel_exists: bool) -> Option<
    Seq<char>,
> {
    if f.network_expectation == CanaryNetworkExpectation::DetectedWithoutExecution && !i.network_attempt_detected {
        Some(f.id + " network attempt was not detected"@)
    } else if sentinel_exists {
        Some(f.id + " created sentinel "@ + i.sentinel_path@)
    } else {
        None
    }
}

/// Judge one inspected fixture: `None` when its declared network attempt,
/// if any, was detected and its sentinel does not exist; otherwise the
/// message naming the failure.
pub fn canary_fixture_verdict(fixture: &CanaryFixture, inspection: &CanaryInspection, sentinel_exists: bool) -> (r:
    Option<String>)
    ensures
        r.deep_view() == canary_verdict(fixture@, *inspection, sentinel_exists),
{
    if fixture.network_expectation == CanaryNetworkExpectation::DetectedWithoutExecution
        && !inspection.network_attempt_detected {
        Some(concat2(fixture.id.as_str(), " network attempt was not detected"))
    } else if sentinel_exists {
        let head = concat2(fixture.id.as_str(), " created sentinel ");
        Some(concat2(head.as_str(), inspection.sentinel_path.as_str()))
    } else {
        None
    }
}

/// Every fixture passed: one inspection each, in order, and none failed
/// with its sentinel absent.
pub open spec fn canary_all_passed(fs: Seq<CanaryFixtureView>, ins: Seq<CanaryInspection>) -> bool {
    &&& ins.len() == fs.len()
    &&& forall|i: int| 0 <= i < fs.len() ==> canary_verdict(fs[i], #[trigger] ins[i], false) is None
}

/// Fixture `k` is the first that failed, with error `e`: the fixtures
/// before it passed with inspections `prior`, and its own inspection
/// `last`, with the sentinel found or not, gives `e`.
pub open spec fn canary_first_failure(
    fs: Seq<CanaryFixtureView>,
    k: int,
    prior: Seq<CanaryInspection>,
    last: CanaryInspection,
    sentinel_exists: bool,
    e: Seq<char>,
) -> bool {
    &&& 0 <= k < fs.len()
    &&& canary_all_passed(fs.take(k), prior)
    &&& canary_verdict(fs[k], last, sentinel_exists) == Some(e)
}

/// `calls` are the calls an inspector receives for `fs` under
/// `sentinel_root`: each fixture once, in order, with one shared probe that
/// starts empty and is handed on from each call to the next.
pub open spec fn canary_calls(calls: Seq<CanaryCall>, fs: Seq<CanaryFixture>, sentinel_root: Seq<char>) -> bool {
    &&& calls.len() == fs.len()
    &&& forall|j: int|
        0 <= j < calls.len() ==> {
            &&& (#[trigger] calls[j]).0 == fs[j]
            &&& calls[j].1 == sentinel_root
            &&& calls[j].2 == if j == 0 {
                Seq::<Seq<char>>::empty()
            } else {
                calls[j - 1].3
            }
        }
}

/// What the static inspector reports of fixture `f` under `sentinel_root`:
/// its id and sentinel path, and a detected network attempt where one is
/// declared.
pub open spec fn static_inspection_of(i: CanaryInspection, f: CanaryFixtureView, sentinel_root: Seq<char>) -> bool {
    &&& i.fixture_id@ == f.id
    &&& i.sentinel_path@ == join_path(sentinel_root, f.sentinel)
    &&& f.network_expectation == CanaryNetworkExpectation::DetectedWithoutExecution ==> i.network_attempt_detected
}

/// Inspect canary fixtures with the static inspector; the inspections, or
/// the first fixture whose trap fired. Whether a sentinel exists is read from
/// the file system; the error names the fixture and its sentinel path.
pub fn assert_canary_inspection_leaves_sentinels_absent(
    fixtures: &[CanaryFixture],
    sentinel_root: &str,
) -> (r: Result<Vec<CanaryInspection>, String>)
    ensures
        match r {
            Ok(v) => v@.len() == fixtures@.len() && forall|i: int|
                0 <= i < fixtures@.len() ==> static_inspection_of(#[trigger] v@[i], fixtures@[i]@, sentinel_root@),
            Err(e) => exists|i: int|
                0 <= i < fixtures@.len() && e@ == (#[trigger] fixtures@[i]).id@ + " created sentinel "@ + join_path(
                    sentinel_root@,
                    fixtures@[i].sentinel@,
                ),
        },
{
    let mut inspector = StaticCanaryInspector;
    let mut inspections: Vec<CanaryInspection> = Vec::new();
    let mut network_probe = CanaryNetworkProbe::new();
    let mut i: usize = 0;
    while i < fixtures.len()
        invariant
            i <= fixtures@.len(),
            inspections@.len() == i,
            forall|j: int| 0 <= j < i ==> static_inspection_of(#[trigger] inspections@[j], fixtures@[j]@, sentinel_root@),
        decreases fixtures@.len() - i,
    {
        let fixture = &fixtures[i];
        let inspection = inspector.inspect_fixture(fixture, sentinel_root, &mut network_probe);
        proof {
            if fixture.network_expectation == CanaryNetworkExpectation::DetectedWithoutExecution {
                assert(network_probe@[network_probe@.len() - 1] == fixture.id@);
            }
            assert(static_inspection_of(inspection, fixtures@[i as int]@, sentinel_root@));
        }
        if !inspection.sentinel_absent() {
            let head = concat2(fixture.id.as_str(), " created sentinel ");
            let e = concat2(head.as_str(), inspection.sentinel_path.as_str());
            assert(e@ == fixtures@[i as int].id@ + " created sentinel "@ + join_path(
                sentinel_root@,
                fixtures@[i as int].sentinel@,
            ));
            return Err(e);
        }
        inspections.push(inspection);
        i = i + 1;
    }
    Ok(inspections)
}

/// The record `after` keeps `before` and adds the calls for `fs` under
/// `sentinel_root`.
pub open spec fn record_extended_by(
    before: Seq<CanaryCall>,
    after: Seq<CanaryCall>,
    fs: Seq<CanaryFixture>,
    sentinel_root: Seq<char>,
) -> bool {
    &&& before.len() <= after.len()
    &&& after.take(before.len() as int) == before
    &&& canary_calls(after.skip(before.len() as int), fs, sentinel_root)
}

/// Inspect canary fixtures through an explicit subject with one shared
/// probe that starts empty, each fixture once and in order; the inspections,
/// or the message of the first fixture that fails its verdict. What the
/// subject reports, and whether a sentinel exists on disk, decide which.
pub fn assert_canary_inspection_leaves_sentinels_absent_with<I: CanaryInspector>(
    inspector: &mut I,
    fixtures: &[CanaryFixture],
    sentinel_root: &str,
) -> (r: Result<Vec<CanaryInspection>, String>)
    ensures
        final(inspector).records_calls() == old(inspector).records_calls(),
        r matches Ok(v) ==> canary_all_passed(canary_views(fixtures@), v@) && (old(inspector).records_calls()
            ==> record_extended_by(old(inspector).inspected(), final(inspector).inspected(), fixtures@, sentinel_root@)),
        r matches Err(e) ==> exists|k: int, prior: Seq<CanaryInspection>, last: CanaryInspection, found: bool|
            #[trigger] canary_first_failure(canary_views(fixtures@), k, prior, last, found, e@) && (old(
                inspector,
            ).records_calls() ==> record_extended_by(
                old(inspector).inspected(),
                final(inspector).inspected(),
                fixtures@.take(k + 1),
                sentinel_root@,
            )),
{
    let ghost fs = canary_views(fixtures@);
    let ghost start = old(inspector).inspected();
    let mut inspections: Vec<CanaryInspection> = Vec::new();
    let mut network_probe = CanaryNetworkProbe::new();
    let mut failure: Option<String> = None;
    let ghost mut fk: int = 0;
    let ghost mut fprior: Seq<CanaryInspection> = Seq::empty();
    let ghost mut flast: Option<CanaryInspection> = None;
    let ghost mut ffound: bool = false;
    let ghost mut made: int = 0;
    let mut i: usize = 0;
    proof {
        if old(inspector).records_calls() {
            assert(start.take(start.len() as int) =~= start);
            assert(start.skip(start.len() as int) =~= Seq::<CanaryCall>::empty());
            assert(fixtures@.take(0) =~= Seq::<CanaryFixture>::empty());
        }
    }
    assert(fs.take(0) =~= Seq::<CanaryFixtureView>::empty());
    while i < fixtures.len()
        invariant_except_break
            failure is None,
        invariant
            i <= fixtures@.len(),
            fs == canary_views(fixtures@),
            fs.len() == fixtures@.len(),
            start == old(inspector).inspected(),
            inspector.records_calls() == old(inspector).records_calls(),
            0 <= made <= fixtures@.len(),
            failure is None ==> made == i,
            failure is Some ==> made == fk + 1,
            failure is None ==> canary_all_passed(fs.take(i as int), inspections@),
            failure matches Some(e) ==> flast is Some && canary_first_failure(fs, fk, fprior, flast->0, ffound, e@),
            old(inspector).records_calls() ==> record_extended_by(
                start,
                inspector.inspected(),
                fixtures@.take(made),
                sentinel_root@,
            ),
            old(inspector).records_calls() ==> network_probe@ == if made == 0 {
                Seq::<Seq<char>>::empty()
            } else {
                inspector.inspected().last().3
            },
        ensures
            failure is None ==> i == fixtures@.len(),
        decreases fixtures@.len() - i,
    {
        let fixture = &fixtures[i];
        let ghost before = inspector.inspected();
        let ghost probe_before = network_probe@;
        let inspection = inspect_canary_fixture_with(
            inspector,
            fixture,
            sentinel_root,
            &mut network_probe,
        );
        proof {
            if old(inspector).records_calls() {
                let after = inspector.inspected();
                let call = (fixtures@[i as int], sentinel_root@, probe_before, network_probe@);
                assert(after == before.push(call));
                assert(after.take(start.len() as int) =~= before.take(start.len() as int));
                assert(after.skip(start.len() as int) =~= before.skip(start.len() as int).push(call));
                assert(fixtures@.take(i + 1) =~= fixtures@.take(i as int).push(fixtures@[i as int]));
                let calls = after.skip(start.len() as int);
                let prev = before.skip(start.len() as int);
                assert forall|j: int| 0 <= j < calls.len() implies {
                    &&& (#[trigger] calls[j]).0 == fixtures@.take(i + 1)[j]
                    &&& calls[j].1 == sentinel_root@
                    &&& calls[j].2 == if j == 0 {
                        Seq::<Seq<char>>::empty()
                    } else {
                        calls[j - 1].3
                    }
                } by {
                    if j < i {
                        assert(calls[j] == prev[j]);
                        if j > 0 {
                            assert(calls[j - 1] == prev[j - 1]);
                        }
                    } else {
                        assert(calls[j] == call);
                        if j > 0 {
                            assert(calls[j - 1] == prev[j - 1]);
                            assert(prev[j - 1] == before.last());
                        }
                    }
                }
                assert(after.last() == call);
            }
            made = i + 1;
            assert(fs[i as int] == fixture@);
        }
        let found = !inspection.sentinel_absent();
        let verdict = canary_fixture_verdict(fixture, &inspection, found);
        if verdict.is_some() {
            proof {
                fk = i as int;
                fprior = inspections@;
                flast = Some(inspection);
                ffound = found;
            }
            failure = verdict;
            break;
        }
        proof {
            assert(fs.take(i + 1) =~= fs.take(i as int).push(fs[i as int]));
            assert(inspections@.push(inspection)[i as int] == inspection);
            assert forall|j: int| 0 <= j < i + 1 implies canary_verdict(
                fs.take(i + 1)[j],
                #[trigger] inspections@.push(inspection)[j],
                false,
            ) is None by {
                if j < i {
                    assert(fs.take(i + 1)[j] == fs.take(i as int)[j]);
                    assert(inspections@.push(inspection)[j] == inspections@[j]);
                }
            }
        }
        inspections.push(inspection);
        i = i + 1;
    }
    match failure {
        Some(e) => {
            let ghost ev = e@;
            let res: Result<Vec<CanaryInspection>, String> = Err(e);
            proof {
                let last = flast->0;
                assert(canary_first_failure(canary_views(fixtures@), fk, fprior, last, ffound, ev));
                assert(res->Err_0@ == ev);
                assert(canary_first_failure(canary_views(fixtures@), fk, fprior, last, ffound, res->Err_0@));
            }
            res
        },
        None => {
            assert(fixtures@.take(fixtures@.len() as int) =~= fixtures@);
            assert(fs.take(fs.len() as int) =~= fs);
            Ok(inspections)
        },
    }
}

/// Inspect the bundled canary fixtures; the first fixture whose trap fired,
/// if any.
pub fn assert_bundled_canary_inspection_is_safe(sentinel_root: &str) -> (r: Result<
    Vec<CanaryInspection>,
    String,
>)
    ensures
        canary_manifest_ok(CANARY_FIXTURE_MANIFEST@) ==> match r {
            Ok(v) => v@.len() == canary_manifest_model(CANARY_FIXTURE_MANIFEST@).len() && forall|i: int|
                0 <= i < v@.len() ==> static_inspection_of(
                    #[trigger] v@[i],
                    canary_manifest_model(CANARY_FIXTURE_MANIFEST@)[i],
                    sentinel_root@,
                ),
            Err(e) => exists|i: int|
                0 <= i < canary_manifest_model(CANARY_FIXTURE_MANIFEST@).len() && e@ == (
                #[trigger] canary_manifest_model(CANARY_FIXTURE_MANIFEST@)[i]).id + " created sentinel "@
                    + join_path(sentinel_root@, canary_manifest_model(CANARY_FIXTURE_MANIFEST@)[i].sentinel),
        },
{
    let fixtures = canary_fixtures();
    let r = assert_canary_inspection_leaves_sentinels_absent(fixtures.as_slice(), sentinel_root);
    proof {
        if canary_manifest_ok(CANARY_FIXTURE_MANIFEST@) {
            assert(forall|i: int| 0 <= i < fixtures@.len() ==> #[trigger] fixtures@[i]@ == canary_views(fixtures@)[i]);
            if r is Err {
                let e = r->Err_0;
                let i = choose|i: int|
                    0 <= i < fixtures@.len() && e@ == (#[trigger] fixtures@[i]).id@ + " created sentinel "@
                        + join_path(sentinel_root@, fixtures@[i].sentinel@);
                assert(canary_manifest_model(CANARY_FIXTURE_MANIFEST@)[i] == fixtures@[i]@);
            }
        }
    }
    r
}

} // verus!
