//! Shared data shapes: reasons, parsed package specs, command intent,
//! registry coordinates and artifact identity.

use vstd::prelude::*;

verus! {

/// Policy decision selected before package execution.
#[derive(Clone, Copy, Debug, PartialEq, Eq, Structural)]
pub enum Decision {
    /// Allow execution after inspection.
    Allow,
    /// Ask the user before execution.
    Ask,
    /// Deny execution after inspection.
    Deny,
}

/// Stable reason vocabulary for parser, registry and artifact outcomes.
#[derive(Clone, Copy, Debug, PartialEq, Eq, Structural)]
pub enum M1Reason {
    /// The package spec is outside the supported surface.
    UnsupportedSpec,
    /// The package spec could not be parsed.
    MalformedSpec,
    /// Registry metadata or download failed.
    RegistryError,
    /// Downloaded bytes did not match integrity metadata.
    IntegrityMismatch,
    /// The package name does not exist in the registry.
    MissingPackage,
    /// The package version does not exist in the registry.
    MissingVersion,
}

/// Category of an unsupported package spec.
#[derive(Clone, Copy, Debug, PartialEq, Eq, Structural)]
pub enum UnsupportedSpecCategory {
    /// A package name without any version token.
    UnversionedName,
    /// A tag, range or partial version instead of an exact version.
    VersionRange,
    /// A git dependency spec.
    GitUrl,
    /// A local filesystem path.
    LocalPath,
    /// A direct tarball URL.
    TarballUrl,
    /// An `npm:` alias spec.
    Alias,
    /// More than one whitespace-separated spec.
    MultipleSpecs,
    /// An `npm exec`/`npx` command shape.
    NpmExecVariant,
    /// Anything else outside the supported surface.
    Other,
}

/// Exact-version package spec inside the supported surface.
#[derive(Clone, Debug, PartialEq, Eq)]
pub struct PackageSpec {
    /// Raw spec text as written by the caller (trimmed).
    pub raw: String,
    /// Package name, including `@scope/` when scoped.
    pub name: String,
    /// Exact SemVer version.
    pub version: String,
    /// Scope without `@`, when scoped.
    pub scope: Option<String>,
}

/// Mathematical model of a [`PackageSpec`].
pub struct PackageSpecView {
    pub raw: Seq<char>,
    pub name: Seq<char>,
    pub version: Seq<char>,
    pub scope: Option<Seq<char>>,
}

impl View for PackageSpec {
    type V = PackageSpecView;

    open spec fn view(&self) -> PackageSpecView {
        PackageSpecView {
            raw: self.raw@,
            name: self.name@,
            version: self.version@,
            scope: self.scope.deep_view(),
        }
    }
}

impl PackageSpec {
    /// Build an exact-version package spec.
    pub fn exact(raw: &str, name: &str, version: &str, scope: Option<String>) -> (r: Self)
        ensures
            r.raw@ == raw@,
            r.name@ == name@,
            r.version@ == version@,
            r.scope == scope,
    {
        PackageSpec {
            raw: raw.to_owned(),
            name: name.to_owned(),
            version: version.to_owned(),
            scope,
        }
    }
}

/// Unsupported-spec refusal before any registry or tarball access.
#[derive(Clone, Copy, Debug, PartialEq, Eq, Structural)]
pub struct UnsupportedSpec {
    /// Stable reason, always `UnsupportedSpec`.
    pub reason: M1Reason,
    /// Unsupported category.
    pub category: UnsupportedSpecCategory,
    /// Whether anything was downloaded (never).
    pub downloaded: bool,
}

/// Malformed-spec refusal before any registry or tarball access.
#[derive(Clone, Debug, PartialEq, Eq)]
pub struct MalformedSpec {
    /// Stable reason, always `MalformedSpec`.
    pub reason: M1Reason,
    /// Raw input as given.
    pub raw: String,
    /// Whether anything was downloaded (never).
    pub downloaded: bool,
}

/// Classification of a raw package spec.
#[derive(Clone, Debug, PartialEq, Eq)]
pub enum PackageSpecParse {
    /// Supported exact-version spec.
    Supported(PackageSpec),
    /// Unsupported spec shape.
    Unsupported(UnsupportedSpec),
    /// Malformed spec.
    Malformed(MalformedSpec),
}

/// Mathematical model of a [`PackageSpecParse`].
pub enum ParseView {
    Supported(PackageSpecView),
    Unsupported(UnsupportedSpecCategory),
    Malformed(Seq<char>),
}

impl View for PackageSpecParse {
    type V = ParseView;

    open spec fn view(&self) -> ParseView {
        match self {
            PackageSpecParse::Supported(p) => ParseView::Supported(p@),
            PackageSpecParse::Unsupported(u) => ParseView::Unsupported(u.category),
            PackageSpecParse::Malformed(m) => ParseView::Malformed(m.raw@),
        }
    }
}

impl PackageSpecParse {
    /// Refusals carry their fixed reason and never report a download.
    pub open spec fn well_formed(&self) -> bool {
        match self {
            PackageSpecParse::Supported(_) => true,
            PackageSpecParse::Unsupported(u) => u.reason == M1Reason::UnsupportedSpec
                && !u.downloaded,
            PackageSpecParse::Malformed(m) => m.reason == M1Reason::MalformedSpec && !m.downloaded,
        }
    }
}

/// Parsed command intent before registry or artifact access.
#[derive(Clone, Debug, PartialEq, Eq)]
pub struct CommandIntent {
    /// Raw requested spec text.
    pub requested: String,
    /// Classification of the requested spec.
    pub package_spec: PackageSpecParse,
    /// Arguments forwarded to the package command (empty when refused).
    pub forwarded_args: Vec<String>,
}

impl CommandIntent {
    /// Intent for a supported spec; forwarded arguments are kept.
    pub fn supported(package_spec: PackageSpec, forwarded_args: Vec<String>) -> (r: Self)
        ensures
            r.requested@ == package_spec.raw@,
            r.package_spec == PackageSpecParse::Supported(package_spec),
            r.forwarded_args == forwarded_args,
    {
        CommandIntent {
            requested: package_spec.raw.clone(),
            package_spec: PackageSpecParse::Supported(package_spec),
            forwarded_args,
        }
    }

    /// Intent for an unsupported spec; forwarded arguments are dropped.
    pub fn unsupported(requested: String, unsupported: UnsupportedSpec) -> (r: Self)
        ensures
            r.requested == requested,
            r.package_spec == PackageSpecParse::Unsupported(unsupported),
            r.forwarded_args@.len() == 0,
    {
        CommandIntent {
            requested,
            package_spec: PackageSpecParse::Unsupported(unsupported),
            forwarded_args: Vec::new(),
        }
    }

    /// Intent for a malformed spec; forwarded arguments are dropped.
    pub fn malformed(requested: String, malformed: MalformedSpec) -> (r: Self)
        ensures
            r.requested == requested,
            r.package_spec == PackageSpecParse::Malformed(malformed),
            r.forwarded_args@.len() == 0,
    {
        CommandIntent {
            requested,
            package_spec: PackageSpecParse::Malformed(malformed),
            forwarded_args: Vec::new(),
        }
    }
}

/// Registry selected for metadata resolution.
#[derive(Clone, Debug, PartialEq, Eq)]
pub struct RegistrySource {
    /// Normalized registry base URL (ends with `/`).
    pub url: String,
    /// Scope this registry was selected for, if any.
    pub scope: Option<String>,
}

/// Mathematical model of a [`RegistrySource`].
pub struct RegistrySourceView {
    pub url: Seq<char>,
    pub scope: Option<Seq<char>>,
}

impl View for RegistrySource {
    type V = RegistrySourceView;

    open spec fn view(&self) -> RegistrySourceView {
        RegistrySourceView { url: self.url@, scope: self.scope.deep_view() }
    }
}

/// A copy of an optional string.
pub fn clone_opt_string(s: &Option<String>) -> (r: Option<String>)
    ensures
        r == *s,
{
    match s {
        Some(x) => Some(x.clone()),
        None => None,
    }
}

/// A copy of a list of strings.
pub fn clone_string_vec(v: &Vec<String>) -> (r: Vec<String>)
    ensures
        r@ == v@,
{
    let mut out: Vec<String> = Vec::new();
    let mut i: usize = 0;
    while i < v.len()
        invariant
            i <= v@.len(),
            out@ == v@.subrange(0, i as int),
        decreases v@.len() - i,
    {
        out.push(v[i].clone());
        assert(v@.subrange(0, i + 1) == v@.subrange(0, i as int).push(v@[i as int]));
        i = i + 1;
    }
    assert(v@.subrange(0, v@.len() as int) == v@);
    out
}

/// A copy of a parsed package spec.
pub fn clone_parse(p: &PackageSpecParse) -> (r: PackageSpecParse)
    ensures
        r == *p,
{
    match p {
        PackageSpecParse::Supported(s) => PackageSpecParse::Supported(
            PackageSpec {
                raw: s.raw.clone(),
                name: s.name.clone(),
                version: s.version.clone(),
                scope: clone_opt_string(&s.scope),
            },
        ),
        PackageSpecParse::Unsupported(u) => PackageSpecParse::Unsupported(*u),
        PackageSpecParse::Malformed(m) => PackageSpecParse::Malformed(
            MalformedSpec { reason: m.reason, raw: m.raw.clone(), downloaded: m.downloaded },
        ),
    }
}

/// A copy of a command intent.
pub fn clone_intent(x: &CommandIntent) -> (r: CommandIntent)
    ensures
        r.requested == x.requested,
        r.package_spec == x.package_spec,
        r.forwarded_args@ == x.forwarded_args@,
{
    CommandIntent {
        requested: x.requested.clone(),
        package_spec: clone_parse(&x.package_spec),
        forwarded_args: clone_string_vec(&x.forwarded_args),
    }
}

/// A copy of resolved package coordinates.
pub fn clone_resolved(x: &ResolvedPackage) -> (r: ResolvedPackage)
    ensures
        r == *x,
{
    ResolvedPackage {
        name: x.name.clone(),
        version: x.version.clone(),
        registry: clone_registry_source(&x.registry),
        tarball_url: x.tarball_url.clone(),
        integrity: x.integrity.clone(),
    }
}

/// A copy of an artifact identity.
pub fn clone_artifact(x: &ArtifactIdentity) -> (r: ArtifactIdentity)
    ensures
        r == *x,
{
    ArtifactIdentity {
        name: x.name.clone(),
        version: x.version.clone(),
        integrity: x.integrity.clone(),
        digest_algorithm: x.digest_algorithm.clone(),
        digest: x.digest.clone(),
    }
}

/// A copy of a registry source.
pub fn clone_registry_source(s: &RegistrySource) -> (r: RegistrySource)
    ensures
        r == *s,
{
    RegistrySource { url: s.url.clone(), scope: clone_opt_string(&s.scope) }
}

/// Exact package coordinates resolved from registry metadata.
#[derive(Clone, Debug, PartialEq, Eq)]
pub struct ResolvedPackage {
    /// Package name.
    pub name: String,
    /// Exact version.
    pub version: String,
    /// Registry the metadata came from.
    pub registry: RegistrySource,
    /// Tarball URL from `dist.tarball`.
    pub tarball_url: String,
    /// Integrity metadata from `dist.integrity`.
    pub integrity: String,
}

/// Mathematical model of a [`ResolvedPackage`].
pub struct ResolvedPackageView {
    pub name: Seq<char>,
    pub version: Seq<char>,
    pub registry: RegistrySourceView,
    pub tarball_url: Seq<char>,
    pub integrity: Seq<char>,
}

impl View for ResolvedPackage {
    type V = ResolvedPackageView;

    open spec fn view(&self) -> ResolvedPackageView {
        ResolvedPackageView {
            name: self.name@,
            version: self.version@,
            registry: self.registry@,
            tarball_url: self.tarball_url@,
            integrity: self.integrity@,
        }
    }
}

/// Verified identity of the exact root artifact bytes.
#[derive(Clone, Debug, PartialEq, Eq)]
pub struct ArtifactIdentity {
    /// Package name.
    pub name: String,
    /// Exact version.
    pub version: String,
    /// Integrity metadata the bytes were verified against.
    pub integrity: String,
    /// Digest algorithm name.
    pub digest_algorithm: String,
    /// Lowercase hexadecimal digest of the bytes.
    pub digest: String,
}

/// Mathematical model of an [`ArtifactIdentity`].
pub struct ArtifactIdentityView {
    pub name: Seq<char>,
    pub version: Seq<char>,
    pub integrity: Seq<char>,
    pub digest_algorithm: Seq<char>,
    pub digest: Seq<char>,
}

impl View for ArtifactIdentity {
    type V = ArtifactIdentityView;

    open spec fn view(&self) -> ArtifactIdentityView {
        ArtifactIdentityView {
            name: self.name@,
            version: self.version@,
            integrity: self.integrity@,
            digest_algorithm: self.digest_algorithm@,
            digest: self.digest@,
        }
    }
}

/// Caller-declared source context of a command.
#[derive(Clone, Copy, Debug, PartialEq, Eq, Structural)]
pub enum SourceContext {
    /// Typed by a person in a terminal.
    ManualTerminal,
    /// Copied from documentation.
    DocsSnippet,
    /// Issued by an agent skill.
    AgentSkill,
    /// Run in continuous integration.
    Ci,
    /// Not declared.
    Unknown,
}

} // verus!
