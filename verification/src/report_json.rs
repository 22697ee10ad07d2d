//! JSON forms of the report's parts: parsed intent, resolved package,
//! artifact identity, registry and static evidence; displayed values are
//! redacted against the home directory `home`.

use vstd::prelude::*;
use crate::closure::DependencyDeclarationKind;
use crate::contracts::{
    ArtifactIdentity, CommandIntent, Decision, M1Reason, PackageSpecParse, RegistrySource,
    ResolvedPackage, UnsupportedSpecCategory,
};
use crate::json_sort::{entries_in_key_order, pairs_in_key_order};
use crate::evidence::{
    pair_views, registry_person_views, ExtractedDependencyDeclaration, ExtractedPackageMetadata,
    PackageOptionalEvidence, PackagePerson, PackageScopeCategory, PersonView, RegistryEvidence,
    RegistryPerson, StaticExtractionEvidence,
};
use crate::json_out::{
    json_opt_str, json_str_array, json_usize, opt_str_json, push_item, push_member, str_values,
    view_items, view_members, JsonOut, JsonV,
};
use crate::numbers::decimal;
use crate::redaction::{redact_report_value, redact_report_values, redacted, redacted_args};
use crate::text::string_views;

verus! {

/// Stable name of a caller decision.
pub open spec fn decision_text(d: Decision) -> Seq<char> {
    match d {
        Decision::Allow => "allow"@,
        Decision::Ask => "ask"@,
        Decision::Deny => "deny"@,
    }
}

/// Stable name of a resolution reason.
pub open spec fn m1_reason_text(r: M1Reason) -> Seq<char> {
    match r {
        M1Reason::UnsupportedSpec => "unsupported_spec"@,
        M1Reason::MalformedSpec => "malformed_spec"@,
        M1Reason::RegistryError => "registry_error"@,
        M1Reason::IntegrityMismatch => "integrity_mismatch"@,
        M1Reason::MissingPackage => "missing_package"@,
        M1Reason::MissingVersion => "missing_version"@,
    }
}

/// Stable name of an unsupported-spec category.
pub open spec fn category_text(c: UnsupportedSpecCategory) -> Seq<char> {
    match c {
        UnsupportedSpecCategory::UnversionedName => "unversioned_name"@,
        UnsupportedSpecCategory::VersionRange => "version_range"@,
        UnsupportedSpecCategory::GitUrl => "git_url"@,
        UnsupportedSpecCategory::LocalPath => "local_path"@,
        UnsupportedSpecCategory::TarballUrl => "tarball_url"@,
        UnsupportedSpecCategory::Alias => "alias"@,
        UnsupportedSpecCategory::MultipleSpecs => "multiple_specs"@,
        UnsupportedSpecCategory::NpmExecVariant => "npm_exec_variant"@,
        UnsupportedSpecCategory::Other => "other"@,
    }
}

/// Return the stable name of a caller decision.
pub fn decision_name(d: &Decision) -> (r: &'static str)
    ensures
        r@ == decision_text(*d),
{
    match d {
        Decision::Allow => "allow",
        Decision::Ask => "ask",
        Decision::Deny => "deny",
    }
}

/// Return the stable name of a resolution reason.
pub fn m1_reason_name(r: &M1Reason) -> (s: &'static str)
    ensures
        s@ == m1_reason_text(*r),
{
    match r {
        M1Reason::UnsupportedSpec => "unsupported_spec",
        M1Reason::MalformedSpec => "malformed_spec",
        M1Reason::RegistryError => "registry_error",
        M1Reason::IntegrityMismatch => "integrity_mismatch",
        M1Reason::MissingPackage => "missing_package",
        M1Reason::MissingVersion => "missing_version",
    }
}

/// Return the stable name of an unsupported-spec category.
pub fn category_name(c: &UnsupportedSpecCategory) -> (s: &'static str)
    ensures
        s@ == category_text(*c),
{
    match c {
        UnsupportedSpecCategory::UnversionedName => "unversioned_name",
        UnsupportedSpecCategory::VersionRange => "version_range",
        UnsupportedSpecCategory::GitUrl => "git_url",
        UnsupportedSpecCategory::LocalPath => "local_path",
        UnsupportedSpecCategory::TarballUrl => "tarball_url",
        UnsupportedSpecCategory::Alias => "alias",
        UnsupportedSpecCategory::MultipleSpecs => "multiple_specs",
        UnsupportedSpecCategory::NpmExecVariant => "npm_exec_variant",
        UnsupportedSpecCategory::Other => "other",
    }
}

pub open spec fn opt_view(o: Option<String>) -> Option<Seq<char>> {
    match o {
        Some(s) => Some(s@),
        None => None,
    }
}

/// JSON of a parsed package spec, tagged by `state`.
pub open spec fn parse_json_model(p: PackageSpecParse, home: Option<Seq<char>>) -> JsonV {
    match p {
        PackageSpecParse::Supported(s) => JsonV::Object(
            seq![
                ("state"@, JsonV::Str("supported"@)),
                ("raw"@, JsonV::Str(redacted(s.raw@, home))),
                ("name"@, JsonV::Str(s.name@)),
                ("version"@, JsonV::Str(s.version@)),
                ("scope"@, opt_str_json(opt_view(s.scope))),
            ],
        ),
        PackageSpecParse::Unsupported(u) => JsonV::Object(
            seq![
                ("state"@, JsonV::Str("unsupported"@)),
                ("reason"@, JsonV::Str(m1_reason_text(u.reason))),
                ("category"@, JsonV::Str(category_text(u.category))),
                ("downloaded"@, JsonV::Bool(u.downloaded)),
            ],
        ),
        PackageSpecParse::Malformed(m) => JsonV::Object(
            seq![
                ("state"@, JsonV::Str("malformed"@)),
                ("reason"@, JsonV::Str(m1_reason_text(m.reason))),
                ("raw"@, JsonV::Str(redacted(m.raw@, home))),
                ("downloaded"@, JsonV::Bool(m.downloaded)),
            ],
        ),
    }
}

/// JSON of parsed command intent.
pub open spec fn intent_json_model(i: CommandIntent, home: Option<Seq<char>>) -> JsonV {
    JsonV::Object(
        seq![
            ("requested"@, JsonV::Str(redacted(i.requested@, home))),
            ("package_spec"@, parse_json_model(i.package_spec, home)),
            (
                "forwarded_args"@,
                JsonV::Array(str_values(redacted_args(string_views(i.forwarded_args@), home, false))),
            ),
        ],
    )
}

fn opt_string_json(o: &Option<String>) -> (r: JsonOut)
    ensures
        r@ == opt_str_json(opt_view(*o)),
{
    match o {
        Some(s) => JsonOut::Str(s.clone()),
        None => JsonOut::Null,
    }
}

/// The JSON of a parsed package spec.
pub fn parse_json_value(p: &PackageSpecParse, home: Option<&str>) -> (r: JsonOut)
    ensures
        r@ == parse_json_model(*p, crate::redaction::opt_view(home)),
{
    let mut m: Vec<(String, JsonOut)> = Vec::new();
    match p {
        PackageSpecParse::Supported(s) => {
            push_member(&mut m, "state", JsonOut::Str("supported".to_owned()));
            push_member(&mut m, "raw", JsonOut::Str(redact_report_value(s.raw.as_str(), home)));
            push_member(&mut m, "name", JsonOut::Str(s.name.clone()));
            push_member(&mut m, "version", JsonOut::Str(s.version.clone()));
            push_member(&mut m, "scope", opt_string_json(&s.scope));
        },
        PackageSpecParse::Unsupported(u) => {
            push_member(&mut m, "state", JsonOut::Str("unsupported".to_owned()));
            push_member(&mut m, "reason", JsonOut::Str(m1_reason_name(&u.reason).to_owned()));
            push_member(&mut m, "category", JsonOut::Str(category_name(&u.category).to_owned()));
            push_member(&mut m, "downloaded", JsonOut::Bool(u.downloaded));
        },
        PackageSpecParse::Malformed(x) => {
            push_member(&mut m, "state", JsonOut::Str("malformed".to_owned()));
            push_member(&mut m, "reason", JsonOut::Str(m1_reason_name(&x.reason).to_owned()));
            push_member(&mut m, "raw", JsonOut::Str(redact_report_value(x.raw.as_str(), home)));
            push_member(&mut m, "downloaded", JsonOut::Bool(x.downloaded));
        },
    }
    proof {
        assert(view_members(m@) =~= match parse_json_model(*p, crate::redaction::opt_view(home)) {
            JsonV::Object(x) => x,
            _ => Seq::empty(),
        });
    }
    JsonOut::Object(m)
}

/// The JSON of parsed command intent.
pub fn intent_json(i: &CommandIntent, home: Option<&str>) -> (r: JsonOut)
    ensures
        r@ == intent_json_model(*i, crate::redaction::opt_view(home)),
{
    let mut m: Vec<(String, JsonOut)> = Vec::new();
    push_member(&mut m, "requested", JsonOut::Str(redact_report_value(i.requested.as_str(), home)));
    push_member(&mut m, "package_spec", parse_json_value(&i.package_spec, home));
    let shown = redact_report_values(i.forwarded_args.as_slice(), home);
    push_member(&mut m, "forwarded_args", json_str_array(&shown));
    proof {
        assert(view_members(m@) =~= match intent_json_model(*i, crate::redaction::opt_view(home)) {
            JsonV::Object(x) => x,
            _ => Seq::empty(),
        });
    }
    JsonOut::Object(m)
}

/// JSON of a registry source.
pub open spec fn registry_source_json_model(r: RegistrySource, home: Option<Seq<char>>) -> JsonV {
    JsonV::Object(
        seq![("url"@, JsonV::Str(redacted(r.url@, home))), ("scope"@, opt_str_json(opt_view(r.scope)))],
    )
}

/// JSON of resolved package coordinates.
pub open spec fn resolved_json_model(p: ResolvedPackage, home: Option<Seq<char>>) -> JsonV {
    JsonV::Object(
        seq![
            ("name"@, JsonV::Str(p.name@)),
            ("version"@, JsonV::Str(p.version@)),
            ("registry"@, registry_source_json_model(p.registry, home)),
            ("tarball_url"@, JsonV::Str(redacted(p.tarball_url@, home))),
            ("integrity"@, JsonV::Str(p.integrity@)),
        ],
    )
}

/// JSON of an artifact identity.
pub open spec fn identity_json_model(a: ArtifactIdentity) -> JsonV {
    JsonV::Object(
        seq![
            ("name"@, JsonV::Str(a.name@)),
            ("version"@, JsonV::Str(a.version@)),
            ("integrity"@, JsonV::Str(a.integrity@)),
            ("digest_algorithm"@, JsonV::Str(a.digest_algorithm@)),
            ("digest"@, JsonV::Str(a.digest@)),
        ],
    )
}

pub fn registry_source_json(r: &RegistrySource, home: Option<&str>) -> (j: JsonOut)
    ensures
        j@ == registry_source_json_model(*r, crate::redaction::opt_view(home)),
{
    let mut m: Vec<(String, JsonOut)> = Vec::new();
    push_member(&mut m, "url", JsonOut::Str(redact_report_value(r.url.as_str(), home)));
    push_member(&mut m, "scope", opt_string_json(&r.scope));
    proof {
        assert(view_members(m@) =~= match registry_source_json_model(*r, crate::redaction::opt_view(home)) {
            JsonV::Object(x) => x,
            _ => Seq::empty(),
        });
    }
    JsonOut::Object(m)
}

pub fn resolved_json(p: &ResolvedPackage, home: Option<&str>) -> (j: JsonOut)
    ensures
        j@ == resolved_json_model(*p, crate::redaction::opt_view(home)),
{
    let mut m: Vec<(String, JsonOut)> = Vec::new();
    push_member(&mut m, "name", JsonOut::Str(p.name.clone()));
    push_member(&mut m, "version", JsonOut::Str(p.version.clone()));
    push_member(&mut m, "registry", registry_source_json(&p.registry, home));
    push_member(&mut m, "tarball_url", JsonOut::Str(redact_report_value(p.tarball_url.as_str(), home)));
    push_member(&mut m, "integrity", JsonOut::Str(p.integrity.clone()));
    proof {
        assert(view_members(m@) =~= match resolved_json_model(*p, crate::redaction::opt_view(home)) {
            JsonV::Object(x) => x,
            _ => Seq::empty(),
        });
    }
    JsonOut::Object(m)
}

pub fn identity_json(a: &ArtifactIdentity) -> (j: JsonOut)
    ensures
        j@ == identity_json_model(*a),
{
    let mut m: Vec<(String, JsonOut)> = Vec::new();
    push_member(&mut m, "name", JsonOut::Str(a.name.clone()));
    push_member(&mut m, "version", JsonOut::Str(a.version.clone()));
    push_member(&mut m, "integrity", JsonOut::Str(a.integrity.clone()));
    push_member(&mut m, "digest_algorithm", JsonOut::Str(a.digest_algorithm.clone()));
    push_member(&mut m, "digest", JsonOut::Str(a.digest.clone()));
    proof {
        assert(view_members(m@) =~= match identity_json_model(*a) {
            JsonV::Object(x) => x,
            _ => Seq::empty(),
        });
    }
    JsonOut::Object(m)
}

/// A member that is written only when the string is present.
pub open spec fn opt_member(key: Seq<char>, o: Option<Seq<char>>) -> Seq<(Seq<char>, JsonV)> {
    match o {
        Some(s) => seq![(key, JsonV::Str(s))],
        None => Seq::empty(),
    }
}

pub(crate) fn push_opt_member(m: &mut Vec<(String, JsonOut)>, key: &str, o: &Option<String>)
    ensures
        view_members(final(m)@) == view_members(old(m)@) + opt_member(key@, opt_view(*o)),
{
    match o {
        Some(s) => {
            push_member(m, key, JsonOut::Str(s.clone()));
            assert(view_members(m@) =~= view_members(old(m)@) + opt_member(key@, opt_view(*o)));
        },
        None => {
            assert(view_members(m@) =~= view_members(old(m)@) + opt_member(key@, opt_view(*o)));
        },
    }
}

/// JSON of a person: only the fields that are present.
pub open spec fn person_json_model(p: PersonView) -> JsonV {
    JsonV::Object(opt_member("name"@, p.name) + opt_member("email"@, p.email))
}

fn person_json(name: &Option<String>, email: &Option<String>) -> (j: JsonOut)
    ensures
        j@ == person_json_model(PersonView { name: opt_view(*name), email: opt_view(*email) }),
{
    let mut m: Vec<(String, JsonOut)> = Vec::new();
    assert(view_members(m@) =~= Seq::empty());
    push_opt_member(&mut m, "name", name);
    push_opt_member(&mut m, "email", email);
    assert(view_members(m@) =~= opt_member("name"@, opt_view(*name)) + opt_member(
        "email"@,
        opt_view(*email),
    ));
    JsonOut::Object(m)
}

/// JSON of a map of strings, as an ordered string map holds it: each key
/// once, in key order, its last value kept.
pub open spec fn string_map_json_model(pairs: Seq<(Seq<char>, Seq<char>)>) -> JsonV {
    JsonV::Object(
        entries_in_key_order(pairs).map_values(|p: (Seq<char>, Seq<char>)| (p.0, JsonV::Str(p.1))),
    )
}

fn string_map_json(given: &Vec<(String, String)>) -> (j: JsonOut)
    ensures
        j@ == string_map_json_model(pair_views(given@)),
{
    let pairs = pairs_in_key_order(given);
    let mut m: Vec<(String, JsonOut)> = Vec::new();
    let mut i: usize = 0;
    while i < pairs.len()
        invariant
            i <= pairs@.len(),
            view_members(m@) == pair_views(pairs@).take(i as int).map_values(
                |p: (Seq<char>, Seq<char>)| (p.0, JsonV::Str(p.1)),
            ),
        decreases pairs@.len() - i,
    {
        push_member(&mut m, pairs[i].0.as_str(), JsonOut::Str(pairs[i].1.clone()));
        proof {
            assert(pair_views(pairs@).take(i + 1).map_values(
                |p: (Seq<char>, Seq<char>)| (p.0, JsonV::Str(p.1)),
            ) =~= pair_views(pairs@).take(i as int).map_values(
                |p: (Seq<char>, Seq<char>)| (p.0, JsonV::Str(p.1)),
            ).push((pairs@[i as int].0@, JsonV::Str(pairs@[i as int].1@))));
        }
        i = i + 1;
    }
    assert(pair_views(pairs@).take(pairs@.len() as int) == pair_views(pairs@));
    JsonOut::Object(m)
}

/// A member written only when the map is not empty.
pub open spec fn map_member(key: Seq<char>, pairs: Seq<(Seq<char>, Seq<char>)>) -> Seq<
    (Seq<char>, JsonV),
> {
    if pairs.len() == 0 {
        Seq::empty()
    } else {
        seq![(key, string_map_json_model(pairs))]
    }
}

/// JSON of people, in order.
pub open spec fn people_json_model(people: Seq<PersonView>) -> Seq<JsonV> {
    people.map_values(|p: PersonView| person_json_model(p))
}

/// A member written only when there are people.
pub open spec fn people_member(key: Seq<char>, people: Seq<PersonView>) -> Seq<(Seq<char>, JsonV)> {
    if people.len() == 0 {
        Seq::empty()
    } else {
        seq![(key, JsonV::Array(people_json_model(people)))]
    }
}

fn registry_people_json(people: &Vec<RegistryPerson>) -> (j: JsonOut)
    ensures
        j@ == JsonV::Array(people_json_model(registry_person_views(people@))),
{
    let mut items: Vec<JsonOut> = Vec::new();
    let mut i: usize = 0;
    while i < people.len()
        invariant
            i <= people@.len(),
            view_items(items@) == people_json_model(registry_person_views(people@).take(i as int)),
        decreases people@.len() - i,
    {
        push_item(&mut items, person_json(&people[i].name, &people[i].email));
        proof {
            assert(people_json_model(registry_person_views(people@).take(i + 1))
                =~= people_json_model(registry_person_views(people@).take(i as int)).push(
                person_json_model(people@[i as int]@),
            ));
        }
        i = i + 1;
    }
    assert(registry_person_views(people@).take(people@.len() as int) == registry_person_views(
        people@,
    ));
    JsonOut::Array(items)
}

pub open spec fn scope_text(c: PackageScopeCategory) -> Seq<char> {
    match c {
        PackageScopeCategory::Scoped => "scoped"@,
        PackageScopeCategory::Unscoped => "unscoped"@,
    }
}

/// JSON of registry evidence; absent and empty optional facts are omitted.
pub open spec fn registry_evidence_json_model(e: RegistryEvidence, home: Option<Seq<char>>) -> JsonV {
    JsonV::Object(
        seq![
            ("registry"@, registry_source_json_model(e.registry, home)),
            ("package_scope"@, JsonV::Str(scope_text(e.package_scope))),
            ("name"@, JsonV::Str(e.name@)),
            ("version"@, JsonV::Str(e.version@)),
        ] + registry_optional_members(e, home) + seq![
            ("dist_integrity"@, JsonV::Str(e.dist_integrity@)),
            ("tarball_url"@, JsonV::Str(redacted(e.tarball_url@, home))),
            ("evidence_boundary"@, JsonV::Str(e.evidence_boundary@)),
        ],
    )
}

/// An optional value, redacted when present.
pub open spec fn redacted_opt(o: Option<Seq<char>>, home: Option<Seq<char>>) -> Option<Seq<char>> {
    match o {
        Some(x) => Some(redacted(x, home)),
        None => None,
    }
}

/// The optional members of registry evidence JSON, in order.
pub open spec fn registry_optional_members(e: RegistryEvidence, home: Option<Seq<char>>) -> Seq<(Seq<char>, JsonV)> {
    opt_member("publish_time"@, opt_view(e.publish_time)) + people_member(
        "maintainers"@,
        registry_person_views(e.maintainers@),
    ) + match e.publisher {
        Some(p) => seq![("publisher"@, person_json_model(p@))],
        None => Seq::empty(),
    } + opt_member("repository"@, redacted_opt(opt_view(e.repository), home)) + opt_member(
        "license"@,
        opt_view(e.license),
    ) + map_member("provenance"@, pair_views(e.provenance@))
}

#[verifier::spinoff_prover]
#[verifier::rlimit(80)]
fn push_registry_optional(m: &mut Vec<(String, JsonOut)>, e: &RegistryEvidence, home: Option<&str>)
    ensures
        view_members(final(m)@) == view_members(old(m)@) + registry_optional_members(*e, crate::redaction::opt_view(home)),
{
    let ghost start = view_members(m@);
    push_opt_member(m, "publish_time", &e.publish_time);
    let ghost after_time = view_members(m@);
    if e.maintainers.len() > 0 {
        push_member(m, "maintainers", registry_people_json(&e.maintainers));
    }
    let ghost after_people = view_members(m@);
    assert(after_people =~= after_time + people_member(
        "maintainers"@,
        registry_person_views(e.maintainers@),
    ));
    match &e.publisher {
        Some(p) => {
            push_member(m, "publisher", person_json(&p.name, &p.email));
        },
        None => {},
    }
    let ghost after_publisher = view_members(m@);
    assert(after_publisher =~= after_people + match e.publisher {
        Some(p) => seq![("publisher"@, person_json_model(p@))],
        None => Seq::<(Seq<char>, JsonV)>::empty(),
    });
    let repository = match &e.repository {
        Some(x) => Some(redact_report_value(x.as_str(), home)),
        None => None,
    };
    assert(opt_view(repository) == redacted_opt(opt_view(e.repository), crate::redaction::opt_view(home)));
    push_opt_member(m, "repository", &repository);
    push_opt_member(m, "license", &e.license);
    let ghost after_license = view_members(m@);
    if e.provenance.len() > 0 {
        push_member(m, "provenance", string_map_json(&e.provenance));
    }
    assert(view_members(m@) =~= after_license + map_member("provenance"@, pair_views(e.provenance@)));
    assert(view_members(m@) =~= start + registry_optional_members(*e, crate::redaction::opt_view(home)));
}

pub fn registry_evidence_json(e: &RegistryEvidence, home: Option<&str>) -> (j: JsonOut)
    ensures
        j@ == registry_evidence_json_model(*e, crate::redaction::opt_view(home)),
{
    let mut m: Vec<(String, JsonOut)> = Vec::new();
    push_member(&mut m, "registry", registry_source_json(&e.registry, home));
    let scope = match e.package_scope {
        PackageScopeCategory::Scoped => "scoped",
        PackageScopeCategory::Unscoped => "unscoped",
    };
    push_member(&mut m, "package_scope", JsonOut::Str(scope.to_owned()));
    push_member(&mut m, "name", JsonOut::Str(e.name.clone()));
    push_member(&mut m, "version", JsonOut::Str(e.version.clone()));
    push_registry_optional(&mut m, e, home);
    push_member(&mut m, "dist_integrity", JsonOut::Str(e.dist_integrity.clone()));
    push_member(&mut m, "tarball_url", JsonOut::Str(redact_report_value(e.tarball_url.as_str(), home)));
    push_member(&mut m, "evidence_boundary", JsonOut::Str(e.evidence_boundary.to_owned()));
    proof {
        assert(view_members(m@) =~= match registry_evidence_json_model(*e, crate::redaction::opt_view(home)) {
            JsonV::Object(x) => x,
            _ => Seq::empty(),
        });
    }
    JsonOut::Object(m)
}

pub open spec fn kind_text(k: DependencyDeclarationKind) -> Seq<char> {
    match k {
        DependencyDeclarationKind::Runtime => "runtime"@,
        DependencyDeclarationKind::Optional => "optional"@,
        DependencyDeclarationKind::Peer => "peer"@,
        DependencyDeclarationKind::PeerMetadata => "peer_metadata"@,
        DependencyDeclarationKind::Bundled => "bundled"@,
        DependencyDeclarationKind::Development => "development"@,
    }
}

fn kind_name(k: &DependencyDeclarationKind) -> (r: &'static str)
    ensures
        r@ == kind_text(*k),
{
    match k {
        DependencyDeclarationKind::Runtime => "runtime",
        DependencyDeclarationKind::Optional => "optional",
        DependencyDeclarationKind::Peer => "peer",
        DependencyDeclarationKind::PeerMetadata => "peer_metadata",
        DependencyDeclarationKind::Bundled => "bundled",
        DependencyDeclarationKind::Development => "development",
    }
}

pub open spec fn declaration_json_model(d: ExtractedDependencyDeclaration) -> JsonV {
    JsonV::Object(
        seq![
            ("name"@, JsonV::Str(d.name@)),
            ("requirement"@, JsonV::Str(d.requirement@)),
            ("kind"@, JsonV::Str(kind_text(d.kind))),
        ],
    )
}

fn declarations_json(ds: &Vec<ExtractedDependencyDeclaration>) -> (j: JsonOut)
    ensures
        j@ == JsonV::Array(ds@.map_values(|d: ExtractedDependencyDeclaration| declaration_json_model(d))),
{
    let mut items: Vec<JsonOut> = Vec::new();
    let mut i: usize = 0;
    while i < ds.len()
        invariant
            i <= ds@.len(),
            view_items(items@) == ds@.take(i as int).map_values(
                |d: ExtractedDependencyDeclaration| declaration_json_model(d),
            ),
        decreases ds@.len() - i,
    {
        let mut m: Vec<(String, JsonOut)> = Vec::new();
        push_member(&mut m, "name", JsonOut::Str(ds[i].name.clone()));
        push_member(&mut m, "requirement", JsonOut::Str(ds[i].requirement.clone()));
        push_member(&mut m, "kind", JsonOut::Str(kind_name(&ds[i].kind).to_owned()));
        proof {
            assert(view_members(m@) =~= match declaration_json_model(ds@[i as int]) {
                JsonV::Object(x) => x,
                _ => Seq::empty(),
            });
        }
        push_item(&mut items, JsonOut::Object(m));
        proof {
            assert(ds@.take(i + 1).map_values(
                |d: ExtractedDependencyDeclaration| declaration_json_model(d),
            ) =~= ds@.take(i as int).map_values(
                |d: ExtractedDependencyDeclaration| declaration_json_model(d),
            ).push(declaration_json_model(ds@[i as int])));
        }
        i = i + 1;
    }
    assert(ds@.take(ds@.len() as int) == ds@);
    JsonOut::Array(items)
}

/// JSON of optional package evidence; absent and empty facts are omitted.
pub open spec fn optional_json_model(o: PackageOptionalEvidence) -> JsonV {
    JsonV::Object(
        opt_member("repository"@, opt_view(o.repository)) + opt_member("license"@, opt_view(o.license))
            + people_member(
            "maintainers"@,
            o.maintainers@.map_values(|p: PackagePerson| p@),
        ) + map_member("provenance"@, pair_views(o.provenance@)),
    )
}

fn optional_json(o: &PackageOptionalEvidence) -> (j: JsonOut)
    ensures
        j@ == optional_json_model(*o),
{
    let mut m: Vec<(String, JsonOut)> = Vec::new();
    assert(view_members(m@) =~= Seq::empty());
    push_opt_member(&mut m, "repository", &o.repository);
    push_opt_member(&mut m, "license", &o.license);
    let ghost before_people = view_members(m@);
    if o.maintainers.len() > 0 {
        let mut items: Vec<JsonOut> = Vec::new();
        let mut i: usize = 0;
        while i < o.maintainers.len()
            invariant
                i <= o.maintainers@.len(),
                view_items(items@) == people_json_model(
                    o.maintainers@.map_values(|p: PackagePerson| p@).take(i as int),
                ),
            decreases o.maintainers@.len() - i,
        {
            push_item(&mut items, person_json(&o.maintainers[i].name, &o.maintainers[i].email));
            proof {
                assert(people_json_model(o.maintainers@.map_values(|p: PackagePerson| p@).take(i + 1))
                    =~= people_json_model(
                    o.maintainers@.map_values(|p: PackagePerson| p@).take(i as int),
                ).push(person_json_model(o.maintainers@[i as int]@)));
            }
            i = i + 1;
        }
        assert(o.maintainers@.map_values(|p: PackagePerson| p@).take(o.maintainers@.len() as int)
            == o.maintainers@.map_values(|p: PackagePerson| p@));
        push_member(&mut m, "maintainers", JsonOut::Array(items));
    }
    assert(view_members(m@) =~= before_people + people_member(
        "maintainers"@,
        o.maintainers@.map_values(|p: PackagePerson| p@),
    ));
    let ghost before_provenance = view_members(m@);
    if o.provenance.len() > 0 {
        push_member(&mut m, "provenance", string_map_json(&o.provenance));
    }
    assert(view_members(m@) =~= before_provenance + map_member("provenance"@, pair_views(o.provenance@)));
    proof {
        assert(view_members(m@) =~= match optional_json_model(*o) {
            JsonV::Object(x) => x,
            _ => Seq::empty(),
        });
    }
    JsonOut::Object(m)
}

/// JSON of extracted package metadata.
pub open spec fn metadata_json_model(md: ExtractedPackageMetadata) -> JsonV {
    JsonV::Object(
        seq![
            ("name"@, opt_str_json(opt_view(md.name))),
            ("version"@, opt_str_json(opt_view(md.version))),
            ("bins"@, string_map_json_model(pair_views(md.bins@))),
            ("lifecycle_scripts"@, string_map_json_model(pair_views(md.lifecycle_scripts@))),
            ("dependency_declarations"@, JsonV::Array(md.dependency_declarations@.map_values(
                |d: ExtractedDependencyDeclaration| declaration_json_model(d),
            ))),
            ("optional_evidence"@, optional_json_model(md.optional_evidence)),
            ("package_json_path"@, JsonV::Str(md.package_json_path@)),
        ],
    )
}

/// JSON of static extraction evidence.
pub open spec fn static_json_model(se: StaticExtractionEvidence) -> JsonV {
    JsonV::Object(
        seq![
            ("metadata"@, metadata_json_model(se.metadata)),
            ("artifact_size_bytes"@, JsonV::Number(decimal(se.artifact_size_bytes as nat))),
            ("file_count"@, JsonV::Number(decimal(se.file_count as nat))),
            ("status"@, JsonV::Str(se.status@)),
        ],
    )
}

pub fn static_json(se: &StaticExtractionEvidence) -> (j: JsonOut)
    ensures
        j@ == static_json_model(*se),
{
    let md = &se.metadata;
    let mut mm: Vec<(String, JsonOut)> = Vec::new();
    push_member(&mut mm, "name", opt_string_json(&md.name));
    push_member(&mut mm, "version", opt_string_json(&md.version));
    push_member(&mut mm, "bins", string_map_json(&md.bins));
    push_member(&mut mm, "lifecycle_scripts", string_map_json(&md.lifecycle_scripts));
    push_member(&mut mm, "dependency_declarations", declarations_json(&md.dependency_declarations));
    push_member(&mut mm, "optional_evidence", optional_json(&md.optional_evidence));
    push_member(&mut mm, "package_json_path", JsonOut::Str(md.package_json_path.clone()));
    proof {
        assert(view_members(mm@) =~= match metadata_json_model(*md) {
            JsonV::Object(x) => x,
            _ => Seq::empty(),
        });
    }
    let mut m: Vec<(String, JsonOut)> = Vec::new();
    push_member(&mut m, "metadata", JsonOut::Object(mm));
    push_member(&mut m, "artifact_size_bytes", json_usize(se.artifact_size_bytes));
    push_member(&mut m, "file_count", json_usize(se.file_count));
    push_member(&mut m, "status", JsonOut::Str(se.status.to_owned()));
    proof {
        assert(view_members(m@) =~= match static_json_model(*se) {
            JsonV::Object(x) => x,
            _ => Seq::empty(),
        });
    }
    JsonOut::Object(m)
}

} // verus!
