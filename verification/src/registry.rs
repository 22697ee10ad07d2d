//! Registry metadata resolution for exact-version package specs, and the
//! registry evidence tied to the resolved version.

use vstd::prelude::*;
use crate::contracts::{
    clone_registry_source, M1Reason, PackageSpec, PackageSpecView, RegistrySource,
    RegistrySourceView, ResolvedPackage, ResolvedPackageView,
};
use crate::evidence::{
    pair_views, PackageScopeCategory, PersonView, RegistryEvidence, RegistryEvidenceView,
    RegistryPerson, ResolvedRegistryPackage, registry_person_views,
};
use crate::json::{
    get_member, get_member_opt, get_nonempty_str, json_get, json_get_opt, json_top_level,
    lookup, lookup_member, member_views, nonempty_str, parse_json, JsonNode, JsonNodeView,
};
use crate::numbers::{decimal, u64_to_decimal};
use crate::registry_precedence::{normalize_registry_url, normalized_url, PUBLIC_NPM_REGISTRY_URL};
use crate::text::str_eq;

verus! {

/// HTTP response returned by a registry transport.
#[derive(Clone, Debug, PartialEq, Eq)]
pub struct RegistryHttpResponse {
    /// HTTP status code.
    pub status: u16,
    /// Response body as text.
    pub body: String,
}

/// Transport-level error before registry payload interpretation.
#[derive(Clone, Debug, PartialEq, Eq)]
pub struct RegistryTransportError {
    /// Transport error detail.
    pub message: String,
}

impl RegistryTransportError {
    /// Create a transport error from a message.
    pub fn new(message: &str) -> (r: Self)
        ensures
            r.message@ == message@,
    {
        RegistryTransportError { message: message.to_owned() }
    }
}

/// HTTP boundary for registry metadata, implemented by callers. A
/// transport may say which answers it gives for a URL (`answers`); one that
/// does not say so may give any.
pub trait RegistryTransport {
    /// Whether `response` is an answer this transport may give for `url`.
    open spec fn answers(&self, url: Seq<char>, response: Result<RegistryHttpResponse, RegistryTransportError>) -> bool {
        true
    }

    /// Fetch one registry metadata URL.
    fn get(&self, url: &str) -> (r: Result<RegistryHttpResponse, RegistryTransportError>)
        ensures
            self.answers(url@, r),
    ;
}

/// The metadata URL of a package spec under a registry: the registry base
/// URL followed by the encoded package name.
pub open spec fn metadata_url_of(registry: RegistrySourceView, spec: PackageSpecView) -> Seq<char> {
    registry.url + encode_name(spec.name)
}

/// Error returned by metadata resolution.
#[derive(Clone, Debug, PartialEq, Eq)]
pub struct RegistryResolutionError {
    /// Stable reason for this error.
    pub reason: M1Reason,
    /// Short diagnostic detail.
    pub detail: String,
}

impl RegistryResolutionError {
    /// Create a registry resolution error.
    pub fn new(reason: M1Reason, detail: &str) -> (r: Self)
        ensures
            r.reason == reason,
            r.detail@ == detail@,
    {
        RegistryResolutionError { reason, detail: detail.to_owned() }
    }
}

/// Outcome of interpreting registry metadata.
pub enum ResolutionModel {
    Resolved(ResolvedPackageView, RegistryEvidenceView),
    Failed(M1Reason, Seq<char>),
}

pub open spec fn resolution_view(r: Result<ResolvedRegistryPackage, RegistryResolutionError>) -> ResolutionModel {
    match r {
        Ok(p) => ResolutionModel::Resolved(p.resolved_package@, p.registry_evidence@),
        Err(e) => ResolutionModel::Failed(e.reason, e.detail@),
    }
}

/// `%`-encoding of `@` and `/` in a package name path segment.
pub open spec fn encode_name(name: Seq<char>) -> Seq<char>
    decreases name.len(),
{
    if name.len() == 0 {
        Seq::empty()
    } else {
        encode_name(name.drop_last()) + if name.last() == '@' {
            "%40"@
        } else if name.last() == '/' {
            "%2F"@
        } else {
            seq![name.last()]
        }
    }
}

/// Percent-encode the npm package name path segment.
fn encode_package_name(name: &str) -> (r: String)
    ensures
        r@ == encode_name(name@),
{
    let n = name.unicode_len();
    let mut out = String::new();
    let mut i: usize = 0;
    while i < n
        invariant
            n == name@.len(),
            i <= n,
            out@ == encode_name(name@.subrange(0, i as int)),
        decreases n - i,
    {
        let c = name.get_char(i);
        assert(name@.subrange(0, i + 1).drop_last() == name@.subrange(0, i as int));
        if c == '@' {
            out.append("%40");
        } else if c == '/' {
            out.append("%2F");
        } else {
            let piece = name.substring_char(i, i + 1);
            assert(piece@ == seq![c]);
            out.append(piece);
        }
        i = i + 1;
    }
    assert(name@.subrange(0, n as int) == name@);
    out
}

/// Client that resolves exact-version package specs through registry metadata.
#[derive(Clone, Debug)]
pub struct NpmMetadataClient<T> {
    registry: RegistrySource,
    transport: T,
}

/// Members of a JSON text that is an object.
pub open spec fn json_object(text: Option<Seq<char>>) -> Option<Seq<(Seq<char>, Seq<char>)>> {
    match text {
        Some(t) => match json_top_level(t) {
            Ok(JsonNodeView::Object(m)) => Some(m),
            _ => None,
        },
        None => None,
    }
}

/// Person from npm's string or `{name, email}` object forms.
pub open spec fn person_model(text: Option<Seq<char>>) -> Option<PersonView> {
    match text {
        None => None,
        Some(t) => match json_top_level(t) {
            Ok(JsonNodeView::Str(s)) => if s.len() > 0 {
                Some(PersonView { name: Some(s), email: None })
            } else {
                None
            },
            Ok(JsonNodeView::Object(m)) => {
                let name = nonempty_str(lookup(m, "name"@));
                let email = nonempty_str(lookup(m, "email"@));
                if name is Some || email is Some {
                    Some(PersonView { name, email })
                } else {
                    None
                }
            },
            _ => None,
        },
    }
}

/// People found in the elements of a JSON array (first to last).
pub open spec fn people_model(items: Seq<Seq<char>>) -> Seq<PersonView>
    decreases items.len(),
{
    if items.len() == 0 {
        Seq::empty()
    } else {
        people_model(items.drop_last()) + match person_model(Some(items.last())) {
            Some(p) => seq![p],
            None => Seq::empty(),
        }
    }
}

/// The people of one array element: the person it holds, if it is one.
pub open spec fn person_list(item: Seq<char>) -> Seq<PersonView> {
    match person_model(Some(item)) {
        Some(p) => seq![p],
        None => Seq::empty(),
    }
}

/// Every element of an array is read for a person: the people of two
/// arrays joined are the people of the first followed by those of the
/// second, and one element yields exactly the person it holds. So each
/// element that parses as a person is kept, in order, and no other.
pub proof fn law_people_of_joined_arrays(first: Seq<Seq<char>>, second: Seq<Seq<char>>, item: Seq<char>)
    ensures
        people_model(first + second) == people_model(first) + people_model(second),
        people_model(seq![item]) == person_list(item),
    decreases second.len(),
{
    assert(seq![item].drop_last() =~= Seq::<Seq<char>>::empty());
    assert(people_model(Seq::<Seq<char>>::empty()) == Seq::<PersonView>::empty());
    assert(Seq::<PersonView>::empty() + person_list(item) =~= person_list(item));
    if second.len() == 0 {
        assert(first + second =~= first);
        assert(people_model(first) + Seq::<PersonView>::empty() =~= people_model(first));
    } else {
        law_people_of_joined_arrays(first, second.drop_last(), item);
        assert((first + second).drop_last() =~= first + second.drop_last());
        assert((first + second).last() == second.last());
        assert(people_model(first) + people_model(second.drop_last()) + person_list(second.last())
            =~= people_model(first) + (people_model(second.drop_last()) + person_list(second.last())));
    }
}

/// People found in an optional JSON array text.
pub open spec fn people_array_model(text: Option<Seq<char>>) -> Seq<PersonView> {
    match text {
        Some(t) => match json_top_level(t) {
            Ok(JsonNodeView::Array(items)) => people_model(items),
            _ => Seq::empty(),
        },
        None => Seq::empty(),
    }
}

/// Repository from a JSON object's `repository` string or `{url}` member.
pub open spec fn repository_model(text: Seq<char>) -> Option<Seq<char>> {
    match json_get(text, "repository"@) {
        None => None,
        Some(r) => match json_top_level(r) {
            Ok(JsonNodeView::Str(s)) => if s.len() > 0 {
                Some(s)
            } else {
                None
            },
            Ok(JsonNodeView::Object(m)) => nonempty_str(lookup(m, "url"@)),
            _ => None,
        },
    }
}

pub open spec fn or_else(a: Option<Seq<char>>, b: Option<Seq<char>>) -> Option<Seq<char>> {
    if a is Some {
        a
    } else {
        b
    }
}

/// Compact JSON of the dist fields `provenance`, `attestations` and
/// `signatures`, keyed `dist.<field>`.
pub open spec fn provenance_model(dist: Seq<char>) -> Seq<(Seq<char>, Seq<char>)> {
    let one = |f: Seq<char>| match json_get(dist, f) {
        Some(t) => seq![("dist."@ + f, t)],
        None => Seq::<(Seq<char>, Seq<char>)>::empty(),
    };
    one("attestations"@) + one("provenance"@) + one("signatures"@)
}

/// Registry evidence for a resolved version.
pub open spec fn evidence_model(
    spec: PackageSpecView,
    registry: RegistrySourceView,
    root: Seq<char>,
    version_metadata: Seq<char>,
    dist: Seq<char>,
    resolved: ResolvedPackageView,
) -> RegistryEvidenceView {
    RegistryEvidenceView {
        registry,
        package_scope: if spec.scope is Some {
            PackageScopeCategory::Scoped
        } else {
            PackageScopeCategory::Unscoped
        },
        name: resolved.name,
        version: resolved.version,
        publish_time: nonempty_str(json_get_opt(json_get(root, "time"@), resolved.version)),
        maintainers: people_array_model(json_get(root, "maintainers"@)),
        publisher: person_model(json_get(version_metadata, "_npmUser"@)),
        repository: or_else(repository_model(version_metadata), repository_model(root)),
        license: or_else(
            nonempty_str(json_get(version_metadata, "license"@)),
            nonempty_str(json_get(root, "license"@)),
        ),
        provenance: provenance_model(dist),
        dist_integrity: resolved.integrity,
        tarball_url: resolved.tarball_url,
        evidence_boundary: "registry metadata is not proof of tarball package contents"@,
    }
}

/// Interpretation of a registry metadata body for an exact spec.
pub open spec fn body_model(
    spec: PackageSpecView,
    registry: RegistrySourceView,
    body: Seq<char>,
) -> ResolutionModel {
    match json_top_level(body) {
        Err(msg) => ResolutionModel::Failed(M1Reason::RegistryError, msg),
        Ok(_) => match json_object(json_get(body, "versions"@)) {
            None => ResolutionModel::Failed(M1Reason::RegistryError, "missing versions object"@),
            Some(versions) => match lookup(versions, spec.version) {
                None => ResolutionModel::Failed(
                    M1Reason::MissingVersion,
                    "requested version was not found"@,
                ),
                Some(vm) => match nonempty_str(json_get(vm, "version"@)) {
                    None => ResolutionModel::Failed(
                        M1Reason::RegistryError,
                        "missing or invalid version"@,
                    ),
                    Some(version) => if version != spec.version {
                        ResolutionModel::Failed(
                            M1Reason::RegistryError,
                            "selected version metadata did not match requested version"@,
                        )
                    } else {
                        match json_get(vm, "dist"@) {
                            None => ResolutionModel::Failed(M1Reason::RegistryError, "missing dist"@),
                            Some(dist) => match nonempty_str(json_get(dist, "tarball"@)) {
                                None => ResolutionModel::Failed(
                                    M1Reason::RegistryError,
                                    "missing or invalid tarball"@,
                                ),
                                Some(tarball) => match nonempty_str(json_get(dist, "integrity"@)) {
                                    None => ResolutionModel::Failed(
                                        M1Reason::RegistryError,
                                        "missing or invalid integrity"@,
                                    ),
                                    Some(integrity) => {
                                        let resolved = ResolvedPackageView {
                                            name: spec.name,
                                            version,
                                            registry,
                                            tarball_url: tarball,
                                            integrity,
                                        };
                                        ResolutionModel::Resolved(
                                            resolved,
                                            evidence_model(spec, registry, body, vm, dist, resolved),
                                        )
                                    },
                                },
                            },
                        }
                    },
                },
            },
        },
    }
}

/// Interpretation of a transport outcome for an exact spec.
pub open spec fn response_model(
    spec: PackageSpecView,
    registry: RegistrySourceView,
    response: Result<RegistryHttpResponse, RegistryTransportError>,
) -> ResolutionModel {
    match response {
        Err(e) => ResolutionModel::Failed(M1Reason::RegistryError, e.message@),
        Ok(r) => if 200 <= r.status <= 299 {
            body_model(spec, registry, r.body@)
        } else if r.status == 404 {
            ResolutionModel::Failed(M1Reason::MissingPackage, "package metadata was not found"@)
        } else {
            ResolutionModel::Failed(
                M1Reason::RegistryError,
                "registry returned HTTP "@ + decimal(r.status as nat),
            )
        },
    }
}

pub(crate) fn person_from(text: &Option<String>) -> (r: Option<RegistryPerson>)
    ensures
        match (r, person_model(text.deep_view())) {
            (Some(p), Some(m)) => p@ == m,
            (None, None) => true,
            _ => false,
        },
{
    match text {
        None => None,
        Some(t) => match parse_json(t.as_str()) {
            Ok(JsonNode::Str(s)) => if s.unicode_len() > 0 {
                Some(RegistryPerson { name: Some(s), email: None })
            } else {
                None
            },
            Ok(JsonNode::Object(m)) => {
                let name_text = match lookup_member(&m, "name") {
                    Some(v) => Some(v.clone()),
                    None => None,
                };
                let email_text = match lookup_member(&m, "email") {
                    Some(v) => Some(v.clone()),
                    None => None,
                };
                let name = get_nonempty_str(&name_text);
                let email = get_nonempty_str(&email_text);
                if name.is_some() || email.is_some() {
                    Some(RegistryPerson { name, email })
                } else {
                    None
                }
            },
            _ => None,
        },
    }
}

pub(crate) fn people_from(text: &Option<String>) -> (r: Vec<RegistryPerson>)
    ensures
        registry_person_views(r@) == people_array_model(text.deep_view()),
{
    let mut out: Vec<RegistryPerson> = Vec::new();
    let t = match text {
        Some(t) => t,
        None => return out,
    };
    let items = match parse_json(t.as_str()) {
        Ok(JsonNode::Array(items)) => items,
        _ => return out,
    };
    let ghost iv = items.deep_view();
    let mut i: usize = 0;
    while i < items.len()
        invariant
            iv == items.deep_view(),
            i <= items@.len(),
            registry_person_views(out@) == people_model(iv.subrange(0, i as int)),
        decreases items@.len() - i,
    {
        let item = Some(items[i].clone());
        proof {
            assert(iv.subrange(0, i + 1).drop_last() == iv.subrange(0, i as int));
            assert(iv.subrange(0, i + 1).last() == items@[i as int]@);
            assert(item.deep_view() == Some(items@[i as int]@));
        }
        let ghost before = out@;
        match person_from(&item) {
            Some(p) => {
                out.push(p);
                assert(registry_person_views(out@) =~= registry_person_views(before).push(p@));
            },
            None => {},
        }
        i = i + 1;
    }
    assert(iv.subrange(0, iv.len() as int) == iv);
    out
}

pub(crate) fn repository_from(text: &str) -> (r: Option<String>)
    ensures
        r.deep_view() == repository_model(text@),
{
    match get_member(text, "repository") {
        None => None,
        Some(r) => match parse_json(r.as_str()) {
            Ok(JsonNode::Str(s)) => if s.unicode_len() > 0 {
                Some(s)
            } else {
                None
            },
            Ok(JsonNode::Object(m)) => {
                let url = match lookup_member(&m, "url") {
                    Some(v) => Some(v.clone()),
                    None => None,
                };
                get_nonempty_str(&url)
            },
            _ => None,
        },
    }
}

fn push_provenance(out: &mut Vec<(String, String)>, dist: &str, field: &str)
    ensures
        pair_views(final(out)@) == pair_views(old(out)@) + match json_get(dist@, field@) {
            Some(t) => seq![("dist."@ + field@, t)],
            None => Seq::<(Seq<char>, Seq<char>)>::empty(),
        },
{
    if let Some(t) = get_member(dist, field) {
        let mut key = "dist.".to_owned();
        key.append(field);
        out.push((key, t));
        assert(pair_views(out@) =~= pair_views(old(out)@).push((key@, t@)));
    } else {
        assert(pair_views(out@) =~= pair_views(old(out)@));
    }
}

/// Build registry evidence from registry metadata texts.
pub fn build_registry_evidence(
    package_spec: &PackageSpec,
    registry: &RegistrySource,
    root_metadata: &str,
    version_metadata: &str,
    dist: &str,
    resolved_package: &ResolvedPackage,
) -> (r: RegistryEvidence)
    ensures
        r@ == evidence_model(
            package_spec@,
            registry@,
            root_metadata@,
            version_metadata@,
            dist@,
            resolved_package@,
        ),
{
    let time = get_member(root_metadata, "time");
    let publish_text = get_member_opt(&time, resolved_package.version.as_str());
    let publish_time = get_nonempty_str(&publish_text);
    let maintainers = people_from(&get_member(root_metadata, "maintainers"));
    let publisher = person_from(&get_member(version_metadata, "_npmUser"));
    let repository = match repository_from(version_metadata) {
        Some(r) => Some(r),
        None => repository_from(root_metadata),
    };
    let license = match get_nonempty_str(&get_member(version_metadata, "license")) {
        Some(l) => Some(l),
        None => get_nonempty_str(&get_member(root_metadata, "license")),
    };
    let mut provenance: Vec<(String, String)> = Vec::new();
    push_provenance(&mut provenance, dist, "attestations");
    push_provenance(&mut provenance, dist, "provenance");
    push_provenance(&mut provenance, dist, "signatures");
    proof {
        assert(pair_views(Seq::<(String, String)>::empty()) =~= Seq::empty());
    }
    let r = RegistryEvidence {
        registry: clone_registry_source(registry),
        package_scope: if package_spec.scope.is_some() {
            PackageScopeCategory::Scoped
        } else {
            PackageScopeCategory::Unscoped
        },
        name: resolved_package.name.clone(),
        version: resolved_package.version.clone(),
        publish_time,
        maintainers,
        publisher,
        repository,
        license,
        provenance,
        dist_integrity: resolved_package.integrity.clone(),
        tarball_url: resolved_package.tarball_url.clone(),
        evidence_boundary: "registry metadata is not proof of tarball package contents",
    };
    proof {
        assert(crate::evidence::person_opt_view(r.publisher) == person_model(
            json_get(version_metadata@, "_npmUser"@),
        ));
        assert(r@.provenance =~= provenance_model(dist@));
    }
    r
}

fn failure(reason: M1Reason, detail: &str) -> (r: Result<ResolvedRegistryPackage, RegistryResolutionError>)
    ensures
        resolution_view(r) == ResolutionModel::Failed(reason, detail@),
{
    Err(RegistryResolutionError { reason, detail: detail.to_owned() })
}

/// Resolve the requested exact version from a registry metadata body.
pub fn resolve_from_body(
    package_spec: &PackageSpec,
    registry: &RegistrySource,
    body: &str,
) -> (r: Result<ResolvedRegistryPackage, RegistryResolutionError>)
    ensures
        resolution_view(r) == body_model(package_spec@, registry@, body@),
{
    let root = match parse_json(body) {
        Err(msg) => return Err(RegistryResolutionError { reason: M1Reason::RegistryError, detail: msg }),
        Ok(node) => node,
    };
    let versions_text = get_member(body, "versions");
    let versions = match &versions_text {
        Some(t) => match parse_json(t.as_str()) {
            Ok(JsonNode::Object(m)) => m,
            _ => return failure(M1Reason::RegistryError, "missing versions object"),
        },
        None => return failure(M1Reason::RegistryError, "missing versions object"),
    };
    let vm = match lookup_member(&versions, package_spec.version.as_str()) {
        Some(v) => v.clone(),
        None => return failure(M1Reason::MissingVersion, "requested version was not found"),
    };
    let version = match get_nonempty_str(&get_member(vm.as_str(), "version")) {
        Some(v) => v,
        None => return failure(M1Reason::RegistryError, "missing or invalid version"),
    };
    if !str_eq(version.as_str(), package_spec.version.as_str()) {
        return failure(
            M1Reason::RegistryError,
            "selected version metadata did not match requested version",
        );
    }
    let dist = match get_member(vm.as_str(), "dist") {
        Some(d) => d,
        None => return failure(M1Reason::RegistryError, "missing dist"),
    };
    let tarball_url = match get_nonempty_str(&get_member(dist.as_str(), "tarball")) {
        Some(t) => t,
        None => return failure(M1Reason::RegistryError, "missing or invalid tarball"),
    };
    let integrity = match get_nonempty_str(&get_member(dist.as_str(), "integrity")) {
        Some(t) => t,
        None => return failure(M1Reason::RegistryError, "missing or invalid integrity"),
    };
    let resolved_package = ResolvedPackage {
        name: package_spec.name.clone(),
        version,
        registry: clone_registry_source(registry),
        tarball_url,
        integrity,
    };
    let registry_evidence = build_registry_evidence(
        package_spec,
        registry,
        body,
        vm.as_str(),
        dist.as_str(),
        &resolved_package,
    );
    Ok(ResolvedRegistryPackage { resolved_package, registry_evidence })
}

/// Interpret one transport outcome for a package spec.
pub fn resolve_from_response(
    package_spec: &PackageSpec,
    registry: &RegistrySource,
    response: Result<RegistryHttpResponse, RegistryTransportError>,
) -> (r: Result<ResolvedRegistryPackage, RegistryResolutionError>)
    ensures
        resolution_view(r) == response_model(package_spec@, registry@, response),
{
    match response {
        Err(error) => Err(RegistryResolutionError { reason: M1Reason::RegistryError, detail: error.message }),
        Ok(response) => {
            if 200 <= response.status && response.status <= 299 {
                resolve_from_body(package_spec, registry, response.body.as_str())
            } else if response.status == 404 {
                failure(M1Reason::MissingPackage, "package metadata was not found")
            } else {
                let mut detail = "registry returned HTTP ".to_owned();
                let code = u64_to_decimal(response.status as u64);
                detail.append(code.as_str());
                Err(RegistryResolutionError { reason: M1Reason::RegistryError, detail })
            }
        },
    }
}

impl<T: RegistryTransport> NpmMetadataClient<T> {
    /// The registry this client resolves against.
    pub closed spec fn registry_model(&self) -> RegistrySourceView {
        self.registry@
    }

    /// Create a client for the public npm registry.
    pub fn public(transport: T) -> (r: Self)
        ensures
            r.registry_model() == (RegistrySourceView { url: PUBLIC_NPM_REGISTRY_URL@, scope: None }),
            r.held_transport() == transport,
    {
        let r = Self::new(PUBLIC_NPM_REGISTRY_URL, transport);
        proof {
            reveal_strlit("https://registry.npmjs.org/");
            reveal_strlit("/");
            let u = PUBLIC_NPM_REGISTRY_URL@;
            assert(u.len() > 0);
            assert(!crate::text::is_ws(u[0]) && !crate::text::is_ws(u.last()));
            crate::text::lemma_trim_fixed(u);
            assert(u.subrange(u.len() - 1, u.len() as int) =~= "/"@);
            assert(normalized_url(u) == u);
        }
        r
    }

    /// Create a client for a registry base URL.
    pub fn new(registry_url: &str, transport: T) -> (r: Self)
        ensures
            r.registry_model() == (RegistrySourceView { url: normalized_url(registry_url@), scope: None }),
            r.held_transport() == transport,
    {
        NpmMetadataClient {
            registry: RegistrySource { url: normalize_registry_url(registry_url), scope: None },
            transport,
        }
    }

    /// Create a client from an already selected registry source.
    pub fn from_registry_source(registry: &RegistrySource, transport: T) -> (r: Self)
        ensures
            r.registry_model() == registry@,
            r.held_transport() == transport,
    {
        NpmMetadataClient { registry: clone_registry_source(registry), transport }
    }

    /// The transport this client fetches through.
    pub closed spec fn held_transport(&self) -> T {
        self.transport
    }

    /// The transport this client fetches through.
    pub fn transport(&self) -> (r: &T)
        ensures
            *r == self.held_transport(),
    {
        &self.transport
    }

    /// Build the metadata URL used for a package spec.
    pub fn metadata_url(&self, package_spec: &PackageSpec) -> (r: String)
        ensures
            r@ == metadata_url_of(self.registry_model(), package_spec@),
    {
        let mut url = self.registry.url.clone();
        let encoded = encode_package_name(package_spec.name.as_str());
        url.append(encoded.as_str());
        url
    }

    /// Resolve exact-version metadata: the transport is asked for the
    /// metadata URL, and its answer is interpreted by
    /// [`resolve_from_response`].
    pub fn resolve_exact(&self, package_spec: &PackageSpec) -> (r: Result<
        ResolvedRegistryPackage,
        RegistryResolutionError,
    >)
        ensures
            exists|response: Result<RegistryHttpResponse, RegistryTransportError>|
                self.held_transport().answers(metadata_url_of(self.registry_model(), package_spec@), response)
                    && #[trigger] response_model(package_spec@, self.registry_model(), response)
                    == resolution_view(r),
    {
        let metadata_url = self.metadata_url(package_spec);
        let response = self.transport.get(metadata_url.as_str());
        let ghost resp = response;
        let r = resolve_from_response(package_spec, &self.registry, response);
        assert(resolution_view(r) == response_model(package_spec@, self.registry_model(), resp));
        r
    }
}

} // verus!
