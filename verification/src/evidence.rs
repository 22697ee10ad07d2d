//! Evidence records gathered before execution: registry facts, statically
//! extracted package metadata, and the overall resolution outcome.

use vstd::prelude::*;
use crate::closure::DependencyDeclarationKind;
use crate::contracts::{
    clone_opt_string, clone_registry_source,
    ArtifactIdentity, M1Reason, RegistrySource, RegistrySourceView, ResolvedPackage,
};

verus! {

/// Resolved package coordinates plus separate registry evidence.
#[derive(Clone, Debug, PartialEq, Eq)]
pub struct ResolvedRegistryPackage {
    /// Exact package coordinates required for tarball download.
    pub resolved_package: ResolvedPackage,
    /// Registry facts tied to the resolved exact version.
    pub registry_evidence: RegistryEvidence,
}

/// Registry evidence tied to one resolved exact package version.
#[derive(Clone, Debug, PartialEq, Eq)]
pub struct RegistryEvidence {
    /// Registry source selected for metadata resolution.
    pub registry: RegistrySource,
    /// Scope category for the requested package.
    pub package_scope: PackageScopeCategory,
    /// Package name from the resolved exact request.
    pub name: String,
    /// Package version from the resolved exact request.
    pub version: String,
    /// Publish time from registry metadata when available.
    pub publish_time: Option<String>,
    /// Maintainers from registry metadata.
    pub maintainers: Vec<RegistryPerson>,
    /// Publisher-like npm user metadata when available.
    pub publisher: Option<RegistryPerson>,
    /// Repository URL or shorthand when available.
    pub repository: Option<String>,
    /// License string when available.
    pub license: Option<String>,
    /// Provenance-like dist fields as (field, compact JSON) pairs, read as an
    /// ordered map: each field once, in key order, the last value kept.
    pub provenance: Vec<(String, String)>,
    /// Dist integrity for the resolved exact version.
    pub dist_integrity: String,
    /// Dist tarball URL for the resolved exact version.
    pub tarball_url: String,
    /// Boundary note: registry facts are not tarball facts.
    pub evidence_boundary: &'static str,
}

/// Mathematical model of a [`RegistryPerson`] or [`PackagePerson`].
pub struct PersonView {
    pub name: Option<Seq<char>>,
    pub email: Option<Seq<char>>,
}

impl View for RegistryPerson {
    type V = PersonView;

    open spec fn view(&self) -> PersonView {
        PersonView { name: self.name.deep_view(), email: self.email.deep_view() }
    }
}

impl View for PackagePerson {
    type V = PersonView;

    open spec fn view(&self) -> PersonView {
        PersonView { name: self.name.deep_view(), email: self.email.deep_view() }
    }
}

pub open spec fn pair_views(v: Seq<(String, String)>) -> Seq<(Seq<char>, Seq<char>)> {
    v.map_values(|p: (String, String)| (p.0@, p.1@))
}

/// Mathematical model of a [`RegistryEvidence`].
pub struct RegistryEvidenceView {
    pub registry: RegistrySourceView,
    pub package_scope: PackageScopeCategory,
    pub name: Seq<char>,
    pub version: Seq<char>,
    pub publish_time: Option<Seq<char>>,
    pub maintainers: Seq<PersonView>,
    pub publisher: Option<PersonView>,
    pub repository: Option<Seq<char>>,
    pub license: Option<Seq<char>>,
    pub provenance: Seq<(Seq<char>, Seq<char>)>,
    pub dist_integrity: Seq<char>,
    pub tarball_url: Seq<char>,
    pub evidence_boundary: Seq<char>,
}

pub open spec fn registry_person_views(v: Seq<RegistryPerson>) -> Seq<PersonView> {
    v.map_values(|p: RegistryPerson| p@)
}

pub open spec fn person_opt_view(p: Option<RegistryPerson>) -> Option<PersonView> {
    match p {
        Some(x) => Some(x@),
        None => None,
    }
}

impl View for RegistryEvidence {
    type V = RegistryEvidenceView;

    open spec fn view(&self) -> RegistryEvidenceView {
        RegistryEvidenceView {
            registry: self.registry@,
            package_scope: self.package_scope,
            name: self.name@,
            version: self.version@,
            publish_time: self.publish_time.deep_view(),
            maintainers: registry_person_views(self.maintainers@),
            publisher: person_opt_view(self.publisher),
            repository: self.repository.deep_view(),
            license: self.license.deep_view(),
            provenance: pair_views(self.provenance@),
            dist_integrity: self.dist_integrity@,
            tarball_url: self.tarball_url@,
            evidence_boundary: self.evidence_boundary@,
        }
    }
}

/// Package scope category for registry evidence.
#[derive(Clone, Copy, Debug, PartialEq, Eq, Structural)]
pub enum PackageScopeCategory {
    /// Package name includes an npm scope.
    Scoped,
    /// Package name has no npm scope.
    Unscoped,
}

/// Person-like registry metadata.
#[derive(Clone, Debug, PartialEq, Eq)]
pub struct RegistryPerson {
    /// Person name when present.
    pub name: Option<String>,
    /// Person email when present.
    pub email: Option<String>,
}

/// Optional package evidence read from verified root package metadata.
#[derive(Clone, Debug, Default, PartialEq, Eq)]
pub struct PackageOptionalEvidence {
    /// Repository URL or shorthand when available.
    pub repository: Option<String>,
    /// License string when available.
    pub license: Option<String>,
    /// Maintainer-like people metadata.
    pub maintainers: Vec<PackagePerson>,
    /// Provenance-like package fields as (field, compact JSON) pairs, read
    /// as an ordered map: each field once, in key order, the last value kept.
    pub provenance: Vec<(String, String)>,
}

/// Person-like package metadata.
#[derive(Clone, Debug, PartialEq, Eq)]
pub struct PackagePerson {
    /// Person name when present.
    pub name: Option<String>,
    /// Person email when present.
    pub email: Option<String>,
}

/// Package metadata needed by static closure checks.
#[derive(Clone, Debug, PartialEq, Eq)]
pub struct ExtractedPackageMetadata {
    /// Package name from `package.json`.
    pub name: Option<String>,
    /// Package version from `package.json`.
    pub version: Option<String>,
    /// Binary declarations as (command, relative path). They are read as
    /// the package's `bin` map: each command once, in key order, the last
    /// path given for it kept (`entries_in_key_order`); parsed metadata
    /// already holds them so (`metadata_keys_ordered`).
    pub bins: Vec<(String, String)>,
    /// Install-time lifecycle scripts as (name, command), read as the
    /// package's `scripts` map in the same way.
    pub lifecycle_scripts: Vec<(String, String)>,
    /// Dependency declarations from `package.json`.
    pub dependency_declarations: Vec<ExtractedDependencyDeclaration>,
    /// Optional package evidence.
    pub optional_evidence: PackageOptionalEvidence,
    /// Path to package metadata relative to the extraction root.
    pub package_json_path: String,
}

/// Dependency declaration read from package metadata.
#[derive(Clone, Debug, PartialEq, Eq)]
pub struct ExtractedDependencyDeclaration {
    /// Dependency name.
    pub name: String,
    /// Declared version/range/source string.
    pub requirement: String,
    /// Dependency declaration kind.
    pub kind: DependencyDeclarationKind,
}

/// Static metadata extracted during inspect mode.
#[derive(Clone, Debug, PartialEq, Eq)]
pub struct StaticExtractionEvidence {
    /// Parsed package metadata tied to the verified artifact.
    pub metadata: ExtractedPackageMetadata,
    /// Size of the verified tarball bytes.
    pub artifact_size_bytes: usize,
    /// Count of regular files inspected from the verified artifact.
    pub file_count: usize,
    /// Extraction status.
    pub status: &'static str,
}

/// Resolution evidence gathered before any package execution.
#[derive(Clone, Debug, PartialEq, Eq)]
pub enum M1Evidence {
    /// Input was refused before registry or tarball access.
    NoDownload {
        /// Stable reason for the refusal.
        reason: M1Reason,
        /// Whether anything was downloaded.
        downloaded: bool,
    },
    /// Root artifact was downloaded and verified against registry integrity.
    Verified {
        /// Exact package metadata resolved from the registry.
        resolved_package: ResolvedPackage,
        /// Integrity verification status.
        integrity_status: &'static str,
        /// Verified digest identity for the exact root artifact bytes.
        artifact_identity: ArtifactIdentity,
        /// Registry facts tied to the resolved exact version.
        registry_evidence: RegistryEvidence,
        /// Static extraction evidence collected from verified bytes.
        static_extraction: Option<StaticExtractionEvidence>,
    },
    /// Registry, download, or integrity work failed before execution.
    Failed {
        /// Stable reason for the failure.
        reason: M1Reason,
        /// Whether root artifact bytes were downloaded before the failure.
        downloaded: bool,
        /// Short deterministic detail.
        detail: String,
    },
}

/// A copy of a list of string pairs.
pub fn clone_pairs(v: &Vec<(String, String)>) -> (r: Vec<(String, String)>)
    ensures
        r@ == v@,
{
    let mut out: Vec<(String, String)> = Vec::new();
    let mut i: usize = 0;
    while i < v.len()
        invariant
            i <= v@.len(),
            out@ == v@.subrange(0, i as int),
        decreases v@.len() - i,
    {
        out.push((v[i].0.clone(), v[i].1.clone()));
        assert(v@.subrange(0, i + 1) == v@.subrange(0, i as int).push(v@[i as int]));
        i = i + 1;
    }
    assert(v@.subrange(0, v@.len() as int) == v@);
    out
}

/// A copy of registry people.
pub fn clone_registry_people(v: &Vec<RegistryPerson>) -> (r: Vec<RegistryPerson>)
    ensures
        r@ == v@,
{
    let mut out: Vec<RegistryPerson> = Vec::new();
    let mut i: usize = 0;
    while i < v.len()
        invariant
            i <= v@.len(),
            out@ == v@.subrange(0, i as int),
        decreases v@.len() - i,
    {
        out.push(RegistryPerson { name: clone_opt_string(&v[i].name), email: clone_opt_string(&v[i].email) });
        assert(v@.subrange(0, i + 1) == v@.subrange(0, i as int).push(v@[i as int]));
        i = i + 1;
    }
    assert(v@.subrange(0, v@.len() as int) == v@);
    out
}

/// A copy of package people.
pub fn clone_package_people(v: &Vec<PackagePerson>) -> (r: Vec<PackagePerson>)
    ensures
        r@ == v@,
{
    let mut out: Vec<PackagePerson> = Vec::new();
    let mut i: usize = 0;
    while i < v.len()
        invariant
            i <= v@.len(),
            out@ == v@.subrange(0, i as int),
        decreases v@.len() - i,
    {
        out.push(PackagePerson { name: clone_opt_string(&v[i].name), email: clone_opt_string(&v[i].email) });
        assert(v@.subrange(0, i + 1) == v@.subrange(0, i as int).push(v@[i as int]));
        i = i + 1;
    }
    assert(v@.subrange(0, v@.len() as int) == v@);
    out
}

/// A copy of dependency declarations.
pub fn clone_declarations(v: &Vec<ExtractedDependencyDeclaration>) -> (r: Vec<ExtractedDependencyDeclaration>)
    ensures
        r@ == v@,
{
    let mut out: Vec<ExtractedDependencyDeclaration> = Vec::new();
    let mut i: usize = 0;
    while i < v.len()
        invariant
            i <= v@.len(),
            out@ == v@.subrange(0, i as int),
        decreases v@.len() - i,
    {
        out.push(
            ExtractedDependencyDeclaration {
                name: v[i].name.clone(),
                requirement: v[i].requirement.clone(),
                kind: v[i].kind,
            },
        );
        assert(v@.subrange(0, i + 1) == v@.subrange(0, i as int).push(v@[i as int]));
        i = i + 1;
    }
    assert(v@.subrange(0, v@.len() as int) == v@);
    out
}

/// A copy of registry evidence.
pub fn clone_registry_evidence(x: &RegistryEvidence) -> (r: RegistryEvidence)
    ensures
        r.registry == x.registry,
        r.package_scope == x.package_scope,
        r.name == x.name,
        r.version == x.version,
        r.publish_time == x.publish_time,
        r.maintainers@ == x.maintainers@,
        r.publisher == x.publisher,
        r.repository == x.repository,
        r.license == x.license,
        r.provenance@ == x.provenance@,
        r.dist_integrity == x.dist_integrity,
        r.tarball_url == x.tarball_url,
        r.evidence_boundary == x.evidence_boundary,
{
    RegistryEvidence {
        registry: clone_registry_source(&x.registry),
        package_scope: x.package_scope,
        name: x.name.clone(),
        version: x.version.clone(),
        publish_time: clone_opt_string(&x.publish_time),
        maintainers: clone_registry_people(&x.maintainers),
        publisher: match &x.publisher {
            Some(p) => Some(RegistryPerson { name: clone_opt_string(&p.name), email: clone_opt_string(&p.email) }),
            None => None,
        },
        repository: clone_opt_string(&x.repository),
        license: clone_opt_string(&x.license),
        provenance: clone_pairs(&x.provenance),
        dist_integrity: x.dist_integrity.clone(),
        tarball_url: x.tarball_url.clone(),
        evidence_boundary: x.evidence_boundary,
    }
}

/// A copy of extracted package metadata.
pub fn clone_metadata(x: &ExtractedPackageMetadata) -> (r: ExtractedPackageMetadata)
    ensures
        r@ == x@,
{
    ExtractedPackageMetadata {
        name: clone_opt_string(&x.name),
        version: clone_opt_string(&x.version),
        bins: clone_pairs(&x.bins),
        lifecycle_scripts: clone_pairs(&x.lifecycle_scripts),
        dependency_declarations: clone_declarations(&x.dependency_declarations),
        optional_evidence: PackageOptionalEvidence {
            repository: clone_opt_string(&x.optional_evidence.repository),
            license: clone_opt_string(&x.optional_evidence.license),
            maintainers: clone_package_people(&x.optional_evidence.maintainers),
            provenance: clone_pairs(&x.optional_evidence.provenance),
        },
        package_json_path: x.package_json_path.clone(),
    }
}

/// A copy of static extraction evidence.
pub fn clone_static(x: &StaticExtractionEvidence) -> (r: StaticExtractionEvidence)
    ensures
        r.metadata@ == x.metadata@,
        r.artifact_size_bytes == x.artifact_size_bytes,
        r.file_count == x.file_count,
        r.status == x.status,
{
    StaticExtractionEvidence {
        metadata: clone_metadata(&x.metadata),
        artifact_size_bytes: x.artifact_size_bytes,
        file_count: x.file_count,
        status: x.status,
    }
}

} // verus!
