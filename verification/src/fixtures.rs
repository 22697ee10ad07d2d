//! Fixture manifest for parser, resolver and artifact behavior: one row per
//! case with its expected state, reason, exit code and sentinel.

use vstd::prelude::*;
use crate::manifest::{manifest_rows, manifest_rows_str, row_fields, row_fields_str};
use crate::numbers::{parse_i32, parse_i32_model};
use crate::contracts::clone_opt_string;
use crate::text::{str_eq, string_views, to_owned_string, views, words, words_str};

verus! {

/// Fixture manifest bundled with the crate.
pub const M1_FIXTURE_MANIFEST: &'static str = "# id|kind|raw_spec|expected_state|expected_reason|expected_exit_code|forwarded_args|sentinel
exact_version|parser|create-example@1.2.3|supported||0|--template react|none
scoped_exact_version|parser|@scope/create-example@1.2.3|supported||0||none
unversioned_name|parser|create-example|unsupported|unsupported_spec|2||no_network
dist_tag|parser|create-example@latest|unsupported|unsupported_spec|2||no_network
version_range|parser|create-example@^1.2.3|unsupported|unsupported_spec|2||no_network
git_url|parser|github:user/repo|unsupported|unsupported_spec|2||no_network
empty_scoped_name|parser|@scope/|malformed|malformed_spec|2||no_network
trailing_at|parser|create-example@|malformed|malformed_spec|2||no_network
registry_error|registry|create-example@1.2.3|inspection_error|registry_error|3||no_execution
missing_package|registry|does-not-exist-example@1.0.0|inspection_error|missing_package|3||no_execution
missing_version|registry|create-example@99.99.99|inspection_error|missing_version|3||no_execution
integrity_mismatch|artifact|create-example@1.2.3|deny|integrity_mismatch|4||no_execution
";

/// Parsed fixture row.
#[derive(Clone, Debug, PartialEq, Eq)]
pub struct M1Fixture {
    /// Stable fixture identifier.
    pub id: String,
    /// Fixture domain such as parser, registry, or artifact.
    pub kind: String,
    /// Raw package spec or command shape.
    pub raw_spec: String,
    /// Expected high-level result state.
    pub expected_state: String,
    /// Expected reason when relevant.
    pub expected_reason: Option<String>,
    /// Expected process exit code.
    pub expected_exit_code: i32,
    /// Forwarded args that should be preserved for supported specs.
    pub forwarded_args: Vec<String>,
    /// Sentinel expectation such as no_network or no_execution.
    pub sentinel: String,
}

/// Mathematical model of an [`M1Fixture`].
pub struct M1FixtureView {
    pub id: Seq<char>,
    pub kind: Seq<char>,
    pub raw_spec: Seq<char>,
    pub expected_state: Seq<char>,
    pub expected_reason: Option<Seq<char>>,
    pub expected_exit_code: i32,
    pub forwarded_args: Seq<Seq<char>>,
    pub sentinel: Seq<char>,
}

pub open spec fn opt_view(o: Option<String>) -> Option<Seq<char>> {
    match o {
        Some(s) => Some(s@),
        None => None,
    }
}

impl View for M1Fixture {
    type V = M1FixtureView;

    open spec fn view(&self) -> M1FixtureView {
        M1FixtureView {
            id: self.id@,
            kind: self.kind@,
            raw_spec: self.raw_spec@,
            expected_state: self.expected_state@,
            expected_reason: opt_view(self.expected_reason),
            expected_exit_code: self.expected_exit_code,
            forwarded_args: string_views(self.forwarded_args@),
            sentinel: self.sentinel@,
        }
    }
}

/// Expected outcome seeded by a registry or artifact fixture.
#[derive(Clone, Debug, PartialEq, Eq)]
pub struct M1FixtureOutcome {
    /// Expected high-level result state.
    pub state: String,
    /// Expected reason when relevant.
    pub reason: Option<String>,
    /// Expected process exit code.
    pub exit_code: i32,
    /// Sentinel expectation such as no_execution.
    pub sentinel: String,
}

impl M1Fixture {
    /// Return true when this fixture is for parser behavior.
    pub fn is_parser_fixture(&self) -> (r: bool)
        ensures
            r == (self.kind@ == "parser"@),
    {
        str_eq(self.kind.as_str(), "parser")
    }

    /// Return true when this fixture proves no network access is allowed.
    pub fn expects_no_network(&self) -> (r: bool)
        ensures
            r == (self.sentinel@ == "no_network"@),
    {
        str_eq(self.sentinel.as_str(), "no_network")
    }

    /// Return true when this fixture seeds artifact behavior.
    pub fn is_artifact_fixture(&self) -> (r: bool)
        ensures
            r == (self.kind@ == "artifact"@),
    {
        str_eq(self.kind.as_str(), "artifact")
    }

    /// Return true when this fixture seeds registry behavior.
    pub fn is_registry_fixture(&self) -> (r: bool)
        ensures
            r == (self.kind@ == "registry"@),
    {
        str_eq(self.kind.as_str(), "registry")
    }

    /// Return the seeded outcome for registry and artifact failure fixtures.
    pub fn seeded_failure_outcome(&self) -> (r: Option<M1FixtureOutcome>)
        ensures
            r is Some <==> (self.kind@ == "registry"@ || self.kind@ == "artifact"@),
            r matches Some(o) ==> o.state@ == self.expected_state@ && opt_view(o.reason)
                == opt_view(self.expected_reason) && o.exit_code == self.expected_exit_code
                && o.sentinel@ == self.sentinel@,
    {
        if !self.is_registry_fixture() && !self.is_artifact_fixture() {
            return None;
        }
        Some(
            M1FixtureOutcome {
                state: to_owned_string(self.expected_state.as_str()),
                reason: clone_opt_string(&self.expected_reason),
                exit_code: self.expected_exit_code,
                sentinel: to_owned_string(self.sentinel.as_str()),
            },
        )
    }
}

/// An empty field is absent.
pub open spec fn optional_field(f: Seq<char>) -> Option<Seq<char>> {
    if f.len() == 0 {
        None
    } else {
        Some(f)
    }
}

/// The fixture a row describes: eight fields and a decimal exit code.
pub open spec fn m1_row(row: Seq<char>) -> Option<M1FixtureView> {
    let f = row_fields(row);
    if f.len() != 8 {
        None
    } else {
        match parse_i32_model(f[5]) {
            Some(code) => Some(
                M1FixtureView {
                    id: f[0],
                    kind: f[1],
                    raw_spec: f[2],
                    expected_state: f[3],
                    expected_reason: optional_field(f[4]),
                    expected_exit_code: code,
                    forwarded_args: words(f[6]),
                    sentinel: f[7],
                },
            ),
            None => None,
        }
    }
}

/// Every row of the manifest describes a fixture.
pub open spec fn m1_manifest_ok(manifest: Seq<char>) -> bool {
    forall|i: int|
        0 <= i < manifest_rows(manifest).len() ==> (#[trigger] m1_row(manifest_rows(manifest)[i]))
            is Some
}

/// The fixtures of a well-formed manifest, in row order.
pub open spec fn m1_manifest_model(manifest: Seq<char>) -> Seq<M1FixtureView> {
    manifest_rows(manifest).map_values(|row: Seq<char>| m1_row(row).unwrap())
}

pub open spec fn m1_views(v: Seq<M1Fixture>) -> Seq<M1FixtureView> {
    v.map_values(|f: M1Fixture| f@)
}

/// Parse all fixtures from the bundled manifest; empty if it had a bad row.
pub fn m1_fixtures() -> (r: Vec<M1Fixture>)
    ensures
        m1_manifest_ok(M1_FIXTURE_MANIFEST@) ==> m1_views(r@) == m1_manifest_model(
            M1_FIXTURE_MANIFEST@,
        ),
        !m1_manifest_ok(M1_FIXTURE_MANIFEST@) ==> r@.len() == 0,
{
    match parse_m1_rows(M1_FIXTURE_MANIFEST) {
        Some(v) => v,
        None => Vec::new(),
    }
}

/// Parse a fixture manifest whose rows are all well formed.
pub fn parse_m1_fixture_manifest(manifest: &str) -> (r: Vec<M1Fixture>)
    requires
        m1_manifest_ok(manifest@),
    ensures
        m1_views(r@) == m1_manifest_model(manifest@),
{
    match parse_m1_rows(manifest) {
        Some(v) => v,
        None => Vec::new(),
    }
}

/// The fixtures of `fixtures` whose kind is `kind`, in order.
pub open spec fn of_kind(fixtures: Seq<M1FixtureView>, kind: Seq<char>) -> Seq<M1FixtureView>
    decreases fixtures.len(),
{
    if fixtures.len() == 0 {
        Seq::empty()
    } else {
        let rest = of_kind(fixtures.drop_last(), kind);
        if fixtures.last().kind == kind {
            rest.push(fixtures.last())
        } else {
            rest
        }
    }
}

/// Return the bundled fixtures of one kind, in manifest order.
pub fn fixtures_by_kind(kind: &str) -> (r: Vec<M1Fixture>)
    ensures
        m1_manifest_ok(M1_FIXTURE_MANIFEST@) ==> m1_views(r@) == of_kind(
            m1_manifest_model(M1_FIXTURE_MANIFEST@),
            kind@,
        ),
        !m1_manifest_ok(M1_FIXTURE_MANIFEST@) ==> r@.len() == 0,
{
    let all = m1_fixtures();
    let ghost all_views = m1_views(all@);
    let mut out: Vec<M1Fixture> = Vec::new();
    let mut i: usize = 0;
    while i < all.len()
        invariant
            i <= all@.len(),
            all_views == m1_views(all@),
            m1_views(out@) == of_kind(all_views.take(i as int), kind@),
        decreases all@.len() - i,
    {
        proof {
            assert(all_views.take(i + 1).drop_last() == all_views.take(i as int));
            assert(all_views.take(i + 1).last() == all@[i as int]@);
        }
        if str_eq(all[i].kind.as_str(), kind) {
            let f = clone_fixture(&all[i]);
            proof {
                assert(m1_views(out@.push(f)) == m1_views(out@).push(f@));
            }
            out.push(f);
        }
        i = i + 1;
    }
    assert(all_views.take(all_views.len() as int) == all_views);
    out
}

/// A copy of a fixture.
fn clone_fixture(f: &M1Fixture) -> (r: M1Fixture)
    ensures
        r@ == f@,
{
    M1Fixture {
        id: f.id.clone(),
        kind: f.kind.clone(),
        raw_spec: f.raw_spec.clone(),
        expected_state: f.expected_state.clone(),
        expected_reason: clone_opt_string(&f.expected_reason),
        expected_exit_code: f.expected_exit_code,
        forwarded_args: f.forwarded_args.clone(),
        sentinel: f.sentinel.clone(),
    }
}

fn parse_m1_rows(manifest: &str) -> (r: Option<Vec<M1Fixture>>)
    ensures
        r is Some <==> m1_manifest_ok(manifest@),
        r is Some ==> m1_views(r->0@) == m1_manifest_model(manifest@),
{
    let rows = manifest_rows_str(manifest);
    let ghost rs = manifest_rows(manifest@);
    let mut out: Vec<M1Fixture> = Vec::new();
    let mut i: usize = 0;
    while i < rows.len()
        invariant
            i <= rows@.len(),
            views(rows@) == rs,
            rs == manifest_rows(manifest@),
            out@.len() == i,
            forall|j: int| 0 <= j < i ==> (#[trigger] m1_row(rs[j])) is Some,
            forall|j: int| 0 <= j < i ==> out@[j]@ == (#[trigger] m1_row(rs[j])).unwrap(),
        decreases rows@.len() - i,
    {
        assert(rows@[i as int]@ == rs[i as int]);
        match parse_fixture_line(rows[i]) {
            Some(f) => {
                out.push(f);
            },
            None => {
                return None;
            },
        }
        i = i + 1;
    }
    assert(m1_views(out@) == m1_manifest_model(manifest@));
    Some(out)
}

fn parse_fixture_line(line: &str) -> (r: Option<M1Fixture>)
    ensures
        match r {
            Some(f) => m1_row(line@) == Some(f@),
            None => m1_row(line@) is None,
        },
{
    let fields = row_fields_str(line);
    if fields.len() != 8 {
        return None;
    }
    assert(fields@[0]@ == row_fields(line@)[0]);
    assert(fields@[1]@ == row_fields(line@)[1]);
    assert(fields@[2]@ == row_fields(line@)[2]);
    assert(fields@[3]@ == row_fields(line@)[3]);
    assert(fields@[4]@ == row_fields(line@)[4]);
    assert(fields@[5]@ == row_fields(line@)[5]);
    assert(fields@[6]@ == row_fields(line@)[6]);
    assert(fields@[7]@ == row_fields(line@)[7]);
    let expected_exit_code = match parse_i32(fields[5]) {
        Some(c) => c,
        None => return None,
    };
    let expected_reason = if fields[4].unicode_len() == 0 {
        None
    } else {
        Some(to_owned_string(fields[4]))
    };
    Some(
        M1Fixture {
            id: to_owned_string(fields[0]),
            kind: to_owned_string(fields[1]),
            raw_spec: to_owned_string(fields[2]),
            expected_state: to_owned_string(fields[3]),
            expected_reason,
            expected_exit_code,
            forwarded_args: words_str(fields[6]),
            sentinel: to_owned_string(fields[7]),
        },
    )
}

} // verus!
