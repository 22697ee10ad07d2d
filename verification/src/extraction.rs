//! Static extraction of a verified root artifact: the gzip tarball is read
//! into a listing, every entry path is checked to be a safe relative path,
//! links and special entries are refused, and `package.json` is read into
//! the metadata that closure checks consume. Nothing is written to disk and
//! no package code runs.

use std::io::Read;
use vstd::prelude::*;
use crate::closure::DependencyDeclarationKind;
use crate::contracts::ArtifactIdentity;
use crate::evidence::{
    ExtractedDependencyDeclaration, ExtractedPackageMetadata, PackageOptionalEvidence,
    PackagePerson, PersonView, StaticExtractionEvidence,
};
use crate::json::{
    json_get, json_top_level, lookup, member_views, nonempty_str, parse_json, JsonNode,
    JsonNodeView,
};
use crate::registry::{
    people_array_model, people_from, repository_from, repository_model,
};
use crate::json_sort::{
    entries_in_key_order, key_lt, keys_strictly_ordered, lemma_ordered_entries_in_key_order, pairs_in_key_order,
};
use crate::text::{
    concat2, contains_char, has_prefix, join, join_strings, split, split_str, starts_with, str_eq,
    string_views, views,
};

verus! {

/// One archive entry as the tar reader yields it.
#[derive(Clone, Debug, PartialEq, Eq)]
pub struct TarEntry {
    /// Entry path, non-UTF-8 bytes replaced.
    pub path: String,
    /// Header type flag, as `tar::EntryType::as_byte` gives it.
    pub type_byte: u8,
    /// Link target, for links that carry one.
    pub link_name: Option<String>,
    /// Entry contents.
    pub data: Vec<u8>,
}

/// The entries read from an archive, and the error that stopped reading.
#[derive(Clone, Debug, PartialEq, Eq)]
pub struct TarListing {
    /// Entries read before any error, in archive order.
    pub entries: Vec<TarEntry>,
    /// Reader error, if reading stopped early.
    pub error: Option<String>,
}

/// Mathematical model of a [`TarEntry`].
pub struct TarEntryView {
    pub path: Seq<char>,
    pub type_byte: u8,
    pub link_name: Option<Seq<char>>,
    pub data: Seq<u8>,
}

/// Mathematical model of a [`TarListing`].
pub struct TarListingView {
    pub entries: Seq<TarEntryView>,
    pub error: Option<Seq<char>>,
}

impl View for TarEntry {
    type V = TarEntryView;

    open spec fn view(&self) -> TarEntryView {
        TarEntryView {
            path: self.path@,
            type_byte: self.type_byte,
            link_name: self.link_name.deep_view(),
            data: self.data@,
        }
    }
}

impl View for TarListing {
    type V = TarListingView;

    open spec fn view(&self) -> TarListingView {
        TarListingView {
            entries: self.entries@.map_values(|e: TarEntry| e@),
            error: self.error.deep_view(),
        }
    }
}

/// What `flate2::read::GzDecoder` decodes the bytes to, or its error message.
pub uninterp spec fn gzip_decoded(bytes: Seq<u8>) -> Result<Seq<u8>, Seq<char>>;

/// What `tar::Archive::entries` yields for the bytes: each entry's path,
/// type, link target and contents, and the error that stopped reading.
pub uninterp spec fn tar_listing(bytes: Seq<u8>) -> TarListingView;

/// What `std::str::from_utf8` makes of the bytes.
pub uninterp spec fn utf8_text(bytes: Seq<u8>) -> Option<Seq<char>>;

/// Decode gzip bytes with `flate2::read::GzDecoder` read to the end.
/// Trusted: the result is `gzip_decoded` of the bytes; an error carries the
/// `std::io::Error` message.
#[verifier::external_body]
fn gunzip(bytes: &[u8]) -> (r: Result<Vec<u8>, String>)
    ensures
        match (r, gzip_decoded(bytes@)) {
            (Ok(b), Ok(m)) => b@ == m,
            (Err(e), Err(m)) => e@ == m,
            _ => false,
        },
{
    let mut out = Vec::new();
    let read = flate2::read::GzDecoder::new(bytes).read_to_end(&mut out);
    read.map(|_| out).map_err(|e| e.to_string())
}

/// List a tar archive with `tar::Archive::entries`.
/// Trusted: the result is `tar_listing` of the bytes: per entry its lossy
/// path, header type flag, link target and contents, stopping at the first
/// reader error, whose message is kept.
#[verifier::external_body]
fn untar(bytes: &[u8]) -> (r: TarListing)
    ensures
        r@ == tar_listing(bytes@),
{
    let mut entries = Vec::new();
    let read = tar::Archive::new(bytes).entries().and_then(|all| {
        for e in all {
            let mut e = e?;
            let mut data = Vec::new();
            e.read_to_end(&mut data)?;
            let type_byte = e.header().entry_type().as_byte();
            let path = e.path()?.to_string_lossy().into_owned();
            let link_name = e.link_name()?.map(|l| l.to_string_lossy().into_owned());
            entries.push(TarEntry { path, type_byte, link_name, data });
        }
        Ok(())
    });
    TarListing { entries, error: read.err().map(|e| e.to_string()) }
}

/// Read bytes as UTF-8 text with `std::str::from_utf8`.
/// Trusted: the result is `utf8_text` of the bytes.
#[verifier::external_body]
fn utf8(bytes: &[u8]) -> (r: Option<String>)
    ensures
        r.deep_view() == utf8_text(bytes@),
{
    std::str::from_utf8(bytes).ok().map(|s| s.to_owned())
}

/// Result of extracting a verified root package artifact.
#[derive(Clone, Debug, PartialEq, Eq)]
pub struct ExtractedRootArtifact {
    /// Artifact identity that authorized these bytes for inspection.
    pub artifact: ArtifactIdentity,
    /// Parsed package metadata tied to `artifact`.
    pub metadata: ExtractedPackageMetadata,
    /// Size of the verified tarball bytes.
    pub artifact_size_bytes: usize,
    /// Count of regular files in the archive.
    pub file_count: usize,
}

/// Static extraction failure.
#[derive(Clone, Debug, PartialEq, Eq)]
pub struct ExtractionError {
    /// Stable extraction failure reason.
    pub reason: ExtractionErrorReason,
    /// Short diagnostic detail.
    pub detail: String,
}

/// Stable reason vocabulary for static extraction failures.
#[derive(Clone, Copy, Debug, PartialEq, Eq, Structural)]
pub enum ExtractionErrorReason {
    /// Archive could not be read as a gzip-compressed tarball.
    InvalidArchive,
    /// Archive entry path was unsafe or platform-ambiguous.
    UnsafePath,
    /// Archive link target was unsafe or platform-ambiguous.
    UnsafeLink,
    /// Archive entry type is outside the static inspection surface.
    UnsupportedEntry,
    /// Required package metadata was missing.
    MissingPackageJson,
    /// Package metadata could not be parsed.
    MalformedPackageJson,
}

// ---------------------------------------------------------------------
// Archive paths
// ---------------------------------------------------------------------

/// Why a path is not a safe relative path.
pub enum PathFault {
    /// A root, `.` prefix or `..` component.
    NotRelative,
    /// A component holding `\` or `:`.
    Ambiguous(Seq<char>),
    /// No component at all.
    Empty,
}

/// How one `/`-separated piece of a path reads as a path component.
#[derive(Clone, Copy, Debug, PartialEq, Eq, Structural)]
pub enum PieceKind {
    Keep,
    Skip,
    Bad,
    Ambiguous,
}

/// Component reading of piece `i`, as `Path::components` does it on Unix:
/// a leading `/` is the root, a leading `.` the current directory, empty
/// pieces and later `.` pieces vanish, `..` is the parent.
pub open spec fn piece_kind(pieces: Seq<Seq<char>>, rooted: bool, i: int) -> PieceKind {
    let p = pieces[i];
    if i == 0 && rooted {
        PieceKind::Bad
    } else if p.len() == 0 {
        PieceKind::Skip
    } else if p == seq!['.'] {
        if i == 0 {
            PieceKind::Bad
        } else {
            PieceKind::Skip
        }
    } else if p == seq!['.', '.'] {
        PieceKind::Bad
    } else if p.contains('\\') || p.contains(':') {
        PieceKind::Ambiguous
    } else {
        PieceKind::Keep
    }
}

/// The kept components of the first `n` pieces, or the first fault.
pub open spec fn scan_pieces(pieces: Seq<Seq<char>>, rooted: bool, n: nat) -> Result<
    Seq<Seq<char>>,
    PathFault,
>
    decreases n,
{
    if n == 0 {
        Ok(Seq::empty())
    } else {
        match scan_pieces(pieces, rooted, (n - 1) as nat) {
            Err(f) => Err(f),
            Ok(kept) => match piece_kind(pieces, rooted, n - 1) {
                PieceKind::Keep => Ok(kept.push(pieces[n - 1])),
                PieceKind::Skip => Ok(kept),
                PieceKind::Bad => Err(PathFault::NotRelative),
                PieceKind::Ambiguous => Err(PathFault::Ambiguous(pieces[n - 1])),
            },
        }
    }
}

/// A path as a safe relative path: its normal components joined by `/`.
pub open spec fn normalize_model(path: Seq<char>) -> Result<Seq<char>, PathFault> {
    let pieces = split(path, '/');
    match scan_pieces(pieces, has_prefix(path, seq!['/']), pieces.len()) {
        Err(f) => Err(f),
        Ok(kept) => if kept.len() == 0 {
            Err(PathFault::Empty)
        } else {
            Ok(join(kept, seq!['/']))
        },
    }
}

/// Diagnostic for a path fault.
pub open spec fn fault_detail(path: Seq<char>, f: PathFault) -> Seq<char> {
    match f {
        PathFault::NotRelative => "archive path is not a safe relative path: \""@ + path
            + seq!['"'],
        PathFault::Ambiguous(c) => "archive path component is ambiguous: \""@ + c + seq!['"'],
        PathFault::Empty => "archive path was empty"@,
    }
}

/// A safe relative path never names a root, a parent or the current
/// directory, and no component of it holds `\` or `:`.
pub proof fn law_normalized_paths_are_relative(path: Seq<char>)
    requires
        normalize_model(path) is Ok,
    ensures
        ({
            let kept = scan_pieces(split(path, '/'), has_prefix(path, seq!['/']), split(path, '/').len())->Ok_0;
            &&& kept.len() > 0
            &&& normalize_model(path) == Ok::<Seq<char>, PathFault>(join(kept, seq!['/']))
            &&& forall|j: int|
                0 <= j < kept.len() ==> #[trigger] kept[j].len() > 0 && kept[j] != seq!['.', '.']
                    && kept[j] != seq!['.'] && !kept[j].contains('/') && !kept[j].contains('\\')
                    && !kept[j].contains(':')
        }),
        !has_prefix(path, seq!['/']),
{
    let pieces = split(path, '/');
    let rooted = has_prefix(path, seq!['/']);
    crate::text::lemma_split_pieces_exclude(path, '/');
    lemma_scan_keeps_safe(pieces, rooted, pieces.len());
    if rooted {
        lemma_scan_rooted_fails(pieces, pieces.len());
    }
}

proof fn lemma_scan_keeps_safe(pieces: Seq<Seq<char>>, rooted: bool, n: nat)
    requires
        n <= pieces.len(),
        forall|i: int| 0 <= i < pieces.len() ==> !(#[trigger] pieces[i]).contains('/'),
    ensures
        scan_pieces(pieces, rooted, n) matches Ok(kept) ==> forall|j: int|
            0 <= j < kept.len() ==> #[trigger] kept[j].len() > 0 && kept[j] != seq!['.', '.']
                && kept[j] != seq!['.'] && !kept[j].contains('/') && !kept[j].contains('\\')
                && !kept[j].contains(':'),
    decreases n,
{
    if n > 0 {
        lemma_scan_keeps_safe(pieces, rooted, (n - 1) as nat);
    }
}

proof fn lemma_scan_rooted_fails(pieces: Seq<Seq<char>>, n: nat)
    requires
        1 <= n <= pieces.len(),
    ensures
        scan_pieces(pieces, true, n) is Err,
    decreases n,
{
    if n > 1 {
        lemma_scan_rooted_fails(pieces, (n - 1) as nat);
    }
}

proof fn lemma_scan_err_persists(pieces: Seq<Seq<char>>, rooted: bool, n: nat, m: nat)
    requires
        n <= m,
        scan_pieces(pieces, rooted, n) is Err,
    ensures
        scan_pieces(pieces, rooted, m) == scan_pieces(pieces, rooted, n),
    decreases m - n,
{
    if n < m {
        lemma_scan_err_persists(pieces, rooted, n, (m - 1) as nat);
    }
}

fn piece_kind_exec(piece: &str, i: usize, rooted: bool, Ghost(pieces): Ghost<Seq<Seq<char>>>) -> (r:
    PieceKind)
    requires
        0 <= i < pieces.len(),
        pieces[i as int] == piece@,
    ensures
        r == piece_kind(pieces, rooted, i as int),
{
    proof {
        reveal_strlit(".");
        reveal_strlit("..");
        assert("."@ == seq!['.']);
        assert(".."@ == seq!['.', '.']);
    }
    let first = i == 0;
    if first && rooted {
        PieceKind::Bad
    } else if piece.unicode_len() == 0 {
        PieceKind::Skip
    } else if str_eq(piece, ".") {
        if first {
            PieceKind::Bad
        } else {
            PieceKind::Skip
        }
    } else if str_eq(piece, "..") {
        PieceKind::Bad
    } else if contains_char(piece, '\\') || contains_char(piece, ':') {
        PieceKind::Ambiguous
    } else {
        PieceKind::Keep
    }
}

/// Normalize and validate an archive path as a safe relative path.
pub fn normalize_archive_path(path: &str) -> (r: Result<String, String>)
    ensures
        match (r, normalize_model(path@)) {
            (Ok(p), Ok(m)) => p@ == m,
            (Err(d), Err(f)) => d@ == fault_detail(path@, f),
            _ => false,
        },
{
    proof {
        reveal_strlit("/");
        reveal_strlit("\"");
        assert("/"@ == seq!['/']);
        assert("\""@ == seq!['"']);
    }
    let pieces = split_str(path, '/');
    let ghost ps = split(path@, '/');
    let rooted = crate::text::starts_with(path, "/");
    let mut kept: Vec<String> = Vec::new();
    assert(string_views(kept@) =~= Seq::<Seq<char>>::empty());
    let mut i: usize = 0;
    while i < pieces.len()
        invariant
            i <= pieces@.len(),
            views(pieces@) == ps,
            ps == split(path@, '/'),
            rooted == has_prefix(path@, seq!['/']),
            scan_pieces(ps, rooted, i as nat) == Ok::<Seq<Seq<char>>, PathFault>(string_views(kept@)),
        decreases pieces@.len() - i,
    {
        let piece = pieces[i];
        assert(piece@ == ps[i as int]);
        let kind = piece_kind_exec(piece, i, rooted, Ghost(ps));
        match kind {
            PieceKind::Keep => {
                let s = piece.to_owned();
                assert(string_views(kept@.push(s)) == string_views(kept@).push(s@));
                kept.push(s);
            },
            PieceKind::Skip => {},
            PieceKind::Bad => {
                proof {
                    assert(scan_pieces(ps, rooted, (i + 1) as nat) == Err::<Seq<Seq<char>>, PathFault>(PathFault::NotRelative));
                    lemma_scan_err_persists(ps, rooted, (i + 1) as nat, ps.len());
                    assert(normalize_model(path@) == Err::<Seq<char>, PathFault>(PathFault::NotRelative));
                }
                let head = concat2("archive path is not a safe relative path: \"", path);
                proof {
                    reveal_strlit("\"");
                    assert("\""@ == seq!['"']);
                }
                return Err(concat2(head.as_str(), "\""));
            },
            PieceKind::Ambiguous => {
                proof {
                    assert(scan_pieces(ps, rooted, (i + 1) as nat) == Err::<Seq<Seq<char>>, PathFault>(PathFault::Ambiguous(piece@)));
                    lemma_scan_err_persists(ps, rooted, (i + 1) as nat, ps.len());
                    assert(normalize_model(path@) == Err::<Seq<char>, PathFault>(PathFault::Ambiguous(piece@)));
                }
                let head = concat2("archive path component is ambiguous: \"", piece);
                proof {
                    reveal_strlit("\"");
                    assert("\""@ == seq!['"']);
                }
                return Err(concat2(head.as_str(), "\""));
            },
        }
        i = i + 1;
    }
    if kept.len() == 0 {
        return Err("archive path was empty".to_owned());
    }
    Ok(join_strings(&kept, "/"))
}


// ---------------------------------------------------------------------
// package.json
// ---------------------------------------------------------------------

/// Mathematical model of an [`ExtractedDependencyDeclaration`].
pub struct DeclarationView {
    pub name: Seq<char>,
    pub requirement: Seq<char>,
    pub kind: DependencyDeclarationKind,
}

/// Mathematical model of a [`PackageOptionalEvidence`].
pub struct OptionalEvidenceView {
    pub repository: Option<Seq<char>>,
    pub license: Option<Seq<char>>,
    pub maintainers: Seq<PersonView>,
    pub provenance: Seq<(Seq<char>, Seq<char>)>,
}

/// Mathematical model of an [`ExtractedPackageMetadata`].
pub struct MetadataView {
    pub name: Option<Seq<char>>,
    pub version: Option<Seq<char>>,
    pub bins: Seq<(Seq<char>, Seq<char>)>,
    pub lifecycle_scripts: Seq<(Seq<char>, Seq<char>)>,
    pub dependency_declarations: Seq<DeclarationView>,
    pub optional_evidence: OptionalEvidenceView,
    pub package_json_path: Seq<char>,
}

impl View for ExtractedDependencyDeclaration {
    type V = DeclarationView;

    open spec fn view(&self) -> DeclarationView {
        DeclarationView { name: self.name@, requirement: self.requirement@, kind: self.kind }
    }
}

impl View for PackageOptionalEvidence {
    type V = OptionalEvidenceView;

    open spec fn view(&self) -> OptionalEvidenceView {
        OptionalEvidenceView {
            repository: self.repository.deep_view(),
            license: self.license.deep_view(),
            maintainers: self.maintainers@.map_values(|p: PackagePerson| p@),
            provenance: crate::evidence::pair_views(self.provenance@),
        }
    }
}

impl View for ExtractedPackageMetadata {
    type V = MetadataView;

    open spec fn view(&self) -> MetadataView {
        MetadataView {
            name: self.name.deep_view(),
            version: self.version.deep_view(),
            bins: crate::evidence::pair_views(self.bins@),
            lifecycle_scripts: crate::evidence::pair_views(self.lifecycle_scripts@),
            dependency_declarations: self.dependency_declarations@.map_values(
                |d: ExtractedDependencyDeclaration| d@,
            ),
            optional_evidence: self.optional_evidence@,
            package_json_path: self.package_json_path@,
        }
    }
}

/// An optional string member: absent and `null` are `None`; any other
/// non-string value makes the document invalid (outer `None`).
pub open spec fn opt_string_member(members: Seq<(Seq<char>, Seq<char>)>, key: Seq<char>) -> Option<
    Option<Seq<char>>,
> {
    match lookup(members, key) {
        None => Some(None),
        Some(v) => match json_top_level(v) {
            Ok(JsonNodeView::Null) => Some(None),
            Ok(JsonNodeView::Str(s)) => Some(Some(s)),
            _ => None,
        },
    }
}

/// The members of an object whose values are all strings, with the string
/// values; `None` if some value is not a string.
pub open spec fn string_values(m: Seq<(Seq<char>, Seq<char>)>) -> Option<Seq<(Seq<char>, Seq<char>)>>
    decreases m.len(),
{
    if m.len() == 0 {
        Some(Seq::empty())
    } else {
        match (string_values(m.drop_last()), json_top_level(m.last().1)) {
            (Some(init), Ok(JsonNodeView::Str(v))) => Some(init.push((m.last().0, v))),
            _ => None,
        }
    }
}

/// A string-to-string map member: absent is empty; anything but an object
/// of strings is invalid.
pub open spec fn string_map_member(members: Seq<(Seq<char>, Seq<char>)>, key: Seq<char>) -> Option<
    Seq<(Seq<char>, Seq<char>)>,
> {
    match lookup(members, key) {
        None => Some(Seq::empty()),
        Some(v) => match json_top_level(v) {
            Ok(JsonNodeView::Object(m)) => string_values(m),
            _ => None,
        },
    }
}

/// Command name of a package-name `bin` string: the text after the last `/`.
pub open spec fn package_bin_name(name: Seq<char>) -> Seq<char> {
    match crate::text::rsplit_once(name, '/') {
        Some((_, last)) => last,
        None => name,
    }
}

/// The `bin` member: absent or `null` is none, a string names one bin
/// after the package, an object of strings names each bin.
pub open spec fn bins_member(members: Seq<(Seq<char>, Seq<char>)>, name: Option<Seq<char>>) -> Option<
    Seq<(Seq<char>, Seq<char>)>,
> {
    match lookup(members, "bin"@) {
        None => Some(Seq::empty()),
        Some(v) => match json_top_level(v) {
            Ok(JsonNodeView::Null) => Some(Seq::empty()),
            Ok(JsonNodeView::Str(path)) => Some(
                match name {
                    Some(n) => seq![(package_bin_name(n), path)],
                    None => Seq::empty(),
                },
            ),
            Ok(JsonNodeView::Object(m)) => string_values(m),
            _ => None,
        },
    }
}

/// Install-time lifecycle script names.
pub open spec fn is_lifecycle_script(name: Seq<char>) -> bool {
    name == "preinstall"@ || name == "install"@ || name == "postinstall"@
}

/// The install-time lifecycle scripts among `scripts`, in order.
pub open spec fn lifecycle_only(scripts: Seq<(Seq<char>, Seq<char>)>) -> Seq<(Seq<char>, Seq<char>)>
    decreases scripts.len(),
{
    if scripts.len() == 0 {
        Seq::empty()
    } else {
        let init = lifecycle_only(scripts.drop_last());
        if is_lifecycle_script(scripts.last().0) {
            init.push(scripts.last())
        } else {
            init
        }
    }
}

/// Declarations of one kind from name/requirement pairs.
pub open spec fn declarations(pairs: Seq<(Seq<char>, Seq<char>)>, kind: DependencyDeclarationKind) -> Seq<
    DeclarationView,
> {
    pairs.map_values(|p: (Seq<char>, Seq<char>)| DeclarationView { name: p.0, requirement: p.1, kind })
}

/// Provenance-like package fields whose values are arrays or objects, as
/// compact JSON, in key order: attestations, provenance, signatures.
pub open spec fn package_provenance(text: Seq<char>) -> Seq<(Seq<char>, Seq<char>)> {
    let one = |f: Seq<char>| match json_get(text, f) {
        Some(v) => match json_top_level(v) {
            Ok(JsonNodeView::Array(_)) | Ok(JsonNodeView::Object(_)) => seq![(f, v)],
            _ => Seq::<(Seq<char>, Seq<char>)>::empty(),
        },
        None => Seq::<(Seq<char>, Seq<char>)>::empty(),
    };
    one("attestations"@) + one("provenance"@) + one("signatures"@)
}

/// Optional evidence of a package document; malformed values are skipped.
pub open spec fn optional_evidence_model(text: Seq<char>) -> OptionalEvidenceView {
    OptionalEvidenceView {
        repository: repository_model(text),
        license: nonempty_str(json_get(text, "license"@)),
        maintainers: people_array_model(json_get(text, "maintainers"@)),
        provenance: package_provenance(text),
    }
}

/// Metadata read from a `package.json` text found at `path`, or the
/// parse diagnostic.
pub open spec fn package_json_model(text: Seq<char>, path: Seq<char>) -> Result<MetadataView, Seq<char>> {
    match json_top_level(text) {
        Err(msg) => Err("could not parse package.json: "@ + msg),
        Ok(JsonNodeView::Object(m)) => match (
            opt_string_member(m, "name"@),
            opt_string_member(m, "version"@),
            string_map_member(m, "scripts"@),
            string_map_member(m, "dependencies"@),
            string_map_member(m, "optionalDependencies"@),
            string_map_member(m, "peerDependencies"@),
            string_map_member(m, "devDependencies"@),
        ) {
            (Some(name), Some(version), Some(scripts), Some(deps), Some(optional), Some(peer), Some(dev)) => {
                match bins_member(m, name) {
                    Some(bins) => Ok(
                        MetadataView {
                            name,
                            version,
                            bins,
                            lifecycle_scripts: lifecycle_only(scripts),
                            dependency_declarations: declarations(deps, DependencyDeclarationKind::Runtime)
                                + declarations(optional, DependencyDeclarationKind::Optional)
                                + declarations(peer, DependencyDeclarationKind::Peer)
                                + declarations(dev, DependencyDeclarationKind::Development),
                            optional_evidence: optional_evidence_model(text),
                            package_json_path: path,
                        },
                    ),
                    None => Err("could not parse package.json: invalid `bin`"@),
                }
            },
            _ => Err("could not parse package.json: invalid field types"@),
        },
        Ok(_) => Err("could not parse package.json: expected an object"@),
    }
}


/// The `package.json` member whose entries are declarations of `kind`.
pub open spec fn dependency_member(kind: DependencyDeclarationKind) -> Option<Seq<char>> {
    match kind {
        DependencyDeclarationKind::Runtime => Some("dependencies"@),
        DependencyDeclarationKind::Optional => Some("optionalDependencies"@),
        DependencyDeclarationKind::Peer => Some("peerDependencies"@),
        DependencyDeclarationKind::Development => Some("devDependencies"@),
        _ => None,
    }
}

/// In metadata read from `package.json`, each dependency member gives its
/// own kind: every entry of `dependencies`, `optionalDependencies`,
/// `peerDependencies` or `devDependencies` is declared with kind Runtime,
/// Optional, Peer or Development respectively, and every declaration of
/// that kind is an entry of that member.
pub proof fn law_declaration_kinds_follow_members(
    text: Seq<char>,
    path: Seq<char>,
    m: Seq<(Seq<char>, Seq<char>)>,
    kind: DependencyDeclarationKind,
    key: Seq<char>,
    entries: Seq<(Seq<char>, Seq<char>)>,
)
    requires
        package_json_model(text, path) is Ok,
        json_top_level(text) == Ok::<JsonNodeView, Seq<char>>(JsonNodeView::Object(m)),
        dependency_member(kind) == Some(key),
        string_map_member(m, key) == Some(entries),
    ensures
        forall|i: int|
            0 <= i < entries.len() ==> package_json_model(text, path)->Ok_0.dependency_declarations.contains(
                DeclarationView { name: #[trigger] entries[i].0, requirement: entries[i].1, kind },
            ),
        forall|j: int|
            0 <= j < package_json_model(text, path)->Ok_0.dependency_declarations.len()
                && #[trigger] package_json_model(text, path)->Ok_0.dependency_declarations[j].kind == kind
                ==> entries.contains(
                (
                    package_json_model(text, path)->Ok_0.dependency_declarations[j].name,
                    package_json_model(text, path)->Ok_0.dependency_declarations[j].requirement,
                ),
            ),
{
    let deps = string_map_member(m, "dependencies"@)->0;
    let opt = string_map_member(m, "optionalDependencies"@)->0;
    let peer = string_map_member(m, "peerDependencies"@)->0;
    let dev = string_map_member(m, "devDependencies"@)->0;
    let a = declarations(deps, DependencyDeclarationKind::Runtime);
    let b = declarations(opt, DependencyDeclarationKind::Optional);
    let c = declarations(peer, DependencyDeclarationKind::Peer);
    let d = declarations(dev, DependencyDeclarationKind::Development);
    let decls = package_json_model(text, path)->Ok_0.dependency_declarations;
    assert(decls == a + b + c + d);
    let offset: int = match kind {
        DependencyDeclarationKind::Runtime => 0,
        DependencyDeclarationKind::Optional => a.len() as int,
        DependencyDeclarationKind::Peer => (a.len() + b.len()) as int,
        _ => (a.len() + b.len() + c.len()) as int,
    };
    let own = declarations(entries, kind);
    assert forall|i: int| 0 <= i < entries.len() implies decls.contains(
        DeclarationView { name: #[trigger] entries[i].0, requirement: entries[i].1, kind },
    ) by {
        assert(decls[offset + i] == own[i]);
    }
    assert forall|j: int| 0 <= j < decls.len() && #[trigger] decls[j].kind == kind implies entries.contains(
        (decls[j].name, decls[j].requirement),
    ) by {
        let k: int = j - offset;
        if j < a.len() {
            assert(decls[j] == a[j]);
        } else if j < a.len() + b.len() {
            assert(decls[j] == b[j - a.len()]);
        } else if j < a.len() + b.len() + c.len() {
            assert(decls[j] == c[j - a.len() - b.len()]);
        } else {
            assert(decls[j] == d[j - a.len() - b.len() - c.len()]);
        }
        assert(decls[j] == own[k]);
        assert(entries[k] == (decls[j].name, decls[j].requirement));
    }
}

fn opt_string_member_exec(m: &Vec<(String, String)>, key: &str) -> (r: Option<Option<String>>)
    ensures
        r.deep_view() == opt_string_member(member_views(m@), key@),
{
    match crate::json::lookup_member(m, key) {
        None => Some(None),
        Some(v) => match parse_json(v.as_str()) {
            Ok(JsonNode::Null) => Some(None),
            Ok(JsonNode::Str(s)) => Some(Some(s)),
            _ => None,
        },
    }
}

fn string_values_exec(m: &Vec<(String, String)>) -> (r: Option<Vec<(String, String)>>)
    ensures
        match (r, string_values(member_views(m@))) {
            (Some(v), Some(w)) => crate::evidence::pair_views(v@) == w,
            (None, None) => true,
            _ => false,
        },
        keys_strictly_ordered(member_views(m@)) && r is Some ==> keys_strictly_ordered(
            crate::evidence::pair_views(r->0@),
        ),
{
    let ghost mv = member_views(m@);
    let mut out: Vec<(String, String)> = Vec::new();
    let mut i: usize = 0;
    while i < m.len()
        invariant
            i <= m@.len(),
            mv == member_views(m@),
            string_values(mv.take(i as int)) == Some(crate::evidence::pair_views(out@)),
            out@.len() == i,
            forall|j: int| 0 <= j < i ==> (#[trigger] out@[j]).0@ == mv[j].0,
        decreases m@.len() - i,
    {
        proof {
            assert(mv.take(i + 1).drop_last() == mv.take(i as int));
            assert(mv.take(i + 1).last() == (m@[i as int].0@, m@[i as int].1@));
        }
        match parse_json(m[i].1.as_str()) {
            Ok(JsonNode::Str(v)) => {
                let k = m[i].0.clone();
                proof {
                    assert(crate::evidence::pair_views(out@.push((k, v))) == crate::evidence::pair_views(out@).push((k@, v@)));
                }
                out.push((k, v));
            },
            _ => {
                proof {
                    lemma_string_values_none_persists(mv, (i + 1) as nat);
                    assert(mv.take(mv.len() as int) == mv);
                }
                return None;
            },
        }
        i = i + 1;
    }
    assert(mv.take(mv.len() as int) == mv);
    proof {
        let pv = crate::evidence::pair_views(out@);
        if keys_strictly_ordered(mv) {
            assert forall|a: int, b: int| 0 <= a < b < pv.len() implies key_lt(#[trigger] pv[a].0, #[trigger] pv[b].0) by {
                assert(out@[a].0@ == mv[a].0 && out@[b].0@ == mv[b].0);
            }
        }
    }
    Some(out)
}

proof fn lemma_string_values_none_persists(m: Seq<(Seq<char>, Seq<char>)>, n: nat)
    requires
        n <= m.len(),
        string_values(m.take(n as int)) is None,
    ensures
        string_values(m) is None,
    decreases m.len() - n,
{
    if n < m.len() {
        assert(m.take((n + 1) as int).drop_last() == m.take(n as int));
        lemma_string_values_none_persists(m, n + 1);
    } else {
        assert(m.take(n as int) == m);
    }
}

fn string_map_member_exec(m: &Vec<(String, String)>, key: &str) -> (r: Option<Vec<(String, String)>>)
    ensures
        match (r, string_map_member(member_views(m@), key@)) {
            (Some(v), Some(w)) => crate::evidence::pair_views(v@) == w,
            (None, None) => true,
            _ => false,
        },
        r matches Some(v) ==> keys_strictly_ordered(crate::evidence::pair_views(v@)),
{
    match crate::json::lookup_member(m, key) {
        None => {
            let v: Vec<(String, String)> = Vec::new();
            assert(crate::evidence::pair_views(v@) =~= Seq::empty());
            Some(v)
        },
        Some(v) => match parse_json(v.as_str()) {
            Ok(JsonNode::Object(inner)) => string_values_exec(&inner),
            _ => None,
        },
    }
}

fn package_bin_name_exec(name: &str) -> (r: String)
    ensures
        r@ == package_bin_name(name@),
{
    match crate::text::rsplit_once_str(name, '/') {
        Some((_, last)) => last.to_owned(),
        None => name.to_owned(),
    }
}

fn bins_member_exec(m: &Vec<(String, String)>, name: &Option<String>) -> (r: Option<Vec<(String, String)>>)
    ensures
        match (r, bins_member(member_views(m@), name.deep_view())) {
            (Some(v), Some(w)) => crate::evidence::pair_views(v@) == w,
            (None, None) => true,
            _ => false,
        },
        r matches Some(v) ==> keys_strictly_ordered(crate::evidence::pair_views(v@)),
{
    let mut out: Vec<(String, String)> = Vec::new();
    match crate::json::lookup_member(m, "bin") {
        None => {
            assert(crate::evidence::pair_views(out@) =~= Seq::empty());
            Some(out)
        },
        Some(v) => match parse_json(v.as_str()) {
            Ok(JsonNode::Null) => {
                assert(crate::evidence::pair_views(out@) =~= Seq::empty());
                Some(out)
            },
            Ok(JsonNode::Str(path)) => {
                match name {
                    Some(n) => {
                        let b = package_bin_name_exec(n.as_str());
                        out.push((b, path));
                        assert(crate::evidence::pair_views(out@) =~= seq![(package_bin_name(n@), path@)]);
                    },
                    None => {
                        assert(crate::evidence::pair_views(out@) =~= Seq::empty());
                    },
                }
                Some(out)
            },
            Ok(JsonNode::Object(inner)) => string_values_exec(&inner),
            _ => None,
        },
    }
}

fn lifecycle_only_exec(scripts: &Vec<(String, String)>) -> (r: Vec<(String, String)>)
    ensures
        crate::evidence::pair_views(r@) == lifecycle_only(crate::evidence::pair_views(scripts@)),
        keys_strictly_ordered(crate::evidence::pair_views(scripts@)) ==> keys_strictly_ordered(
            crate::evidence::pair_views(r@),
        ),
{
    let ghost sv = crate::evidence::pair_views(scripts@);
    let ghost ordered = keys_strictly_ordered(sv);
    let mut out: Vec<(String, String)> = Vec::new();
    let mut i: usize = 0;
    while i < scripts.len()
        invariant
            i <= scripts@.len(),
            sv == crate::evidence::pair_views(scripts@),
            ordered == keys_strictly_ordered(sv),
            crate::evidence::pair_views(out@) == lifecycle_only(sv.take(i as int)),
            ordered ==> keys_strictly_ordered(crate::evidence::pair_views(out@)),
            ordered ==> forall|j: int, k: int|
                0 <= j < out@.len() && i <= k < sv.len() ==> key_lt(
                    #[trigger] crate::evidence::pair_views(out@)[j].0,
                    #[trigger] sv[k].0,
                ),
        decreases scripts@.len() - i,
    {
        proof {
            assert(sv.take(i + 1).drop_last() == sv.take(i as int));
            assert(sv.take(i + 1).last() == (scripts@[i as int].0@, scripts@[i as int].1@));
            reveal_strlit("preinstall");
            reveal_strlit("install");
            reveal_strlit("postinstall");
        }
        let name = scripts[i].0.as_str();
        if str_eq(name, "preinstall") || str_eq(name, "install") || str_eq(name, "postinstall") {
            let pair = (scripts[i].0.clone(), scripts[i].1.clone());
            proof {
                assert(crate::evidence::pair_views(out@.push(pair)) == crate::evidence::pair_views(out@).push((pair.0@, pair.1@)));
            }
            out.push(pair);
        }
        i = i + 1;
    }
    assert(sv.take(sv.len() as int) == sv);
    out
}

pub open spec fn declaration_views(v: Seq<ExtractedDependencyDeclaration>) -> Seq<DeclarationView> {
    v.map_values(|d: ExtractedDependencyDeclaration| d@)
}

fn push_declarations(
    out: &mut Vec<ExtractedDependencyDeclaration>,
    pairs: &Vec<(String, String)>,
    kind: DependencyDeclarationKind,
)
    ensures
        declaration_views(final(out)@) == declaration_views(old(out)@) + declarations(
            crate::evidence::pair_views(pairs@),
            kind,
        ),
{
    let ghost start = declaration_views(out@);
    let ghost pv = crate::evidence::pair_views(pairs@);
    let mut i: usize = 0;
    while i < pairs.len()
        invariant
            i <= pairs@.len(),
            pv == crate::evidence::pair_views(pairs@),
            declaration_views(out@) == start + declarations(pv.take(i as int), kind),
        decreases pairs@.len() - i,
    {
        let d = ExtractedDependencyDeclaration {
            name: pairs[i].0.clone(),
            requirement: pairs[i].1.clone(),
            kind,
        };
        proof {
            assert(declarations(pv.take(i + 1), kind) =~= declarations(pv.take(i as int), kind).push(d@));
            assert(declaration_views(out@.push(d)) =~= declaration_views(out@).push(d@));
        }
        out.push(d);
        i = i + 1;
    }
    assert(pv.take(pv.len() as int) == pv);
}

fn push_package_provenance(out: &mut Vec<(String, String)>, text: &str, field: &str)
    ensures
        crate::evidence::pair_views(final(out)@) == crate::evidence::pair_views(old(out)@) + match json_get(text@, field@) {
            Some(v) => match json_top_level(v) {
                Ok(JsonNodeView::Array(_)) | Ok(JsonNodeView::Object(_)) => seq![(field@, v)],
                _ => Seq::<(Seq<char>, Seq<char>)>::empty(),
            },
            None => Seq::<(Seq<char>, Seq<char>)>::empty(),
        },
{
    match crate::json::get_member(text, field) {
        Some(v) => match parse_json(v.as_str()) {
            Ok(JsonNode::Array(_)) | Ok(JsonNode::Object(_)) => {
                out.push((field.to_owned(), v));
                assert(crate::evidence::pair_views(out@) =~= crate::evidence::pair_views(old(out)@).push((field@, v@)));
            },
            _ => {
                assert(crate::evidence::pair_views(out@) =~= crate::evidence::pair_views(old(out)@));
            },
        },
        None => {
            assert(crate::evidence::pair_views(out@) =~= crate::evidence::pair_views(old(out)@));
        },
    }
}

/// Optional evidence of a `package.json` text: repository, license,
/// maintainers and provenance-like fields, each left out when malformed.
pub fn extract_package_optional_evidence(package_json: &str) -> (r: PackageOptionalEvidence)
    ensures
        r@ == optional_evidence_model(package_json@),
{
    let maintainers_text = crate::json::get_member(package_json, "maintainers");
    let people = people_from(&maintainers_text);
    let mut maintainers: Vec<PackagePerson> = Vec::new();
    let mut i: usize = 0;
    while i < people.len()
        invariant
            i <= people@.len(),
            maintainers@.map_values(|p: PackagePerson| p@) == crate::evidence::registry_person_views(people@).take(i as int),
        decreases people@.len() - i,
    {
        let p = PackagePerson { name: people[i].name.clone(), email: people[i].email.clone() };
        proof {
            assert(maintainers@.push(p).map_values(|p: PackagePerson| p@) =~= maintainers@.map_values(|p: PackagePerson| p@).push(p@));
            assert(crate::evidence::registry_person_views(people@).take(i + 1) =~= crate::evidence::registry_person_views(people@).take(i as int).push(people@[i as int]@));
        }
        maintainers.push(p);
        i = i + 1;
    }
    assert(crate::evidence::registry_person_views(people@).take(people@.len() as int) == crate::evidence::registry_person_views(people@));
    let license_text = crate::json::get_member(package_json, "license");
    let mut provenance: Vec<(String, String)> = Vec::new();
    assert(crate::evidence::pair_views(provenance@) =~= Seq::empty());
    push_package_provenance(&mut provenance, package_json, "attestations");
    push_package_provenance(&mut provenance, package_json, "provenance");
    push_package_provenance(&mut provenance, package_json, "signatures");
    PackageOptionalEvidence {
        repository: repository_from(package_json),
        license: crate::json::get_nonempty_str(&license_text),
        maintainers,
        provenance,
    }
}

/// Bins and lifecycle scripts are keyed maps: each name appears once, and
/// names increase by character.
pub open spec fn metadata_keys_ordered(md: MetadataView) -> bool {
    &&& keys_strictly_ordered(md.bins)
    &&& keys_strictly_ordered(md.lifecycle_scripts)
}

/// Metadata read from `package.json` already holds its bins and lifecycle
/// scripts as the package's maps do: reading them as maps (each key once,
/// in key order, the last value kept) leaves them unchanged.
pub proof fn law_parsed_metadata_is_in_map_order(md: MetadataView)
    requires
        metadata_keys_ordered(md),
    ensures
        entries_in_key_order(md.bins) == md.bins,
        entries_in_key_order(md.lifecycle_scripts) == md.lifecycle_scripts,
{
    lemma_ordered_entries_in_key_order(md.bins);
    lemma_ordered_entries_in_key_order(md.lifecycle_scripts);
}

/// Read `package.json` text found at `path` into package metadata.
pub fn parse_package_json(text: &str, path: &str) -> (r: Result<ExtractedPackageMetadata, String>)
    ensures
        match (r, package_json_model(text@, path@)) {
            (Ok(m), Ok(w)) => m@ == w,
            (Err(e), Err(w)) => e@ == w,
            _ => false,
        },
        r matches Ok(m) ==> metadata_keys_ordered(m@),
{
    let m = match parse_json(text) {
        Err(msg) => return Err(concat2("could not parse package.json: ", msg.as_str())),
        Ok(JsonNode::Object(m)) => m,
        Ok(_) => return Err("could not parse package.json: expected an object".to_owned()),
    };
    let name = opt_string_member_exec(&m, "name");
    let version = opt_string_member_exec(&m, "version");
    let scripts = string_map_member_exec(&m, "scripts");
    let deps = string_map_member_exec(&m, "dependencies");
    let optional = string_map_member_exec(&m, "optionalDependencies");
    let peer = string_map_member_exec(&m, "peerDependencies");
    let dev = string_map_member_exec(&m, "devDependencies");
    match (name, version, scripts, deps, optional, peer, dev) {
        (Some(name), Some(version), Some(scripts), Some(deps), Some(optional), Some(peer), Some(dev)) => {
            let bins = match bins_member_exec(&m, &name) {
                Some(b) => b,
                None => return Err("could not parse package.json: invalid `bin`".to_owned()),
            };
            let mut dependency_declarations: Vec<ExtractedDependencyDeclaration> = Vec::new();
            assert(declaration_views(dependency_declarations@) =~= Seq::empty());
            push_declarations(&mut dependency_declarations, &deps, DependencyDeclarationKind::Runtime);
            push_declarations(&mut dependency_declarations, &optional, DependencyDeclarationKind::Optional);
            push_declarations(&mut dependency_declarations, &peer, DependencyDeclarationKind::Peer);
            push_declarations(&mut dependency_declarations, &dev, DependencyDeclarationKind::Development);
            let r = ExtractedPackageMetadata {
                name,
                version,
                bins,
                lifecycle_scripts: lifecycle_only_exec(&scripts),
                dependency_declarations,
                optional_evidence: extract_package_optional_evidence(text),
                package_json_path: path.to_owned(),
            };
            assert(r@.dependency_declarations =~= declaration_views(r.dependency_declarations@));
            Ok(r)
        },
        _ => Err("could not parse package.json: invalid field types".to_owned()),
    }
}


// ---------------------------------------------------------------------
// Archive walk
// ---------------------------------------------------------------------

/// What one archive entry contributes: a directory or a regular file at its
/// safe path, or the refusal that stops extraction.
pub enum EntryStep {
    Dir(Seq<char>),
    File(Seq<char>),
    Fail(ExtractionErrorReason, Seq<char>),
}

/// Type flags of the tar header: `5` a directory, `0` a regular file (the
/// reader reports an old-style NUL flag as `0`), `1` a hard link, `2` a
/// symbolic link.
pub open spec fn is_dir_flag(b: u8) -> bool {
    b == 53
}

pub open spec fn is_file_flag(b: u8) -> bool {
    b == 48
}

pub open spec fn is_link_flag(b: u8) -> bool {
    b == 49 || b == 50
}

pub open spec fn entry_step(e: TarEntryView) -> EntryStep {
    match normalize_model(e.path) {
        Err(f) => EntryStep::Fail(ExtractionErrorReason::UnsafePath, fault_detail(e.path, f)),
        Ok(p) => if is_dir_flag(e.type_byte) {
            EntryStep::Dir(p)
        } else if is_file_flag(e.type_byte) {
            EntryStep::File(p)
        } else if is_link_flag(e.type_byte) {
            match e.link_name {
                None => EntryStep::Fail(ExtractionErrorReason::UnsafeLink, "link entry had no target"@),
                Some(l) => match normalize_model(l) {
                    Err(f) => EntryStep::Fail(
                        ExtractionErrorReason::UnsafeLink,
                        "link target is unsafe: "@ + fault_detail(l, f),
                    ),
                    Ok(_) => EntryStep::Fail(
                        ExtractionErrorReason::UnsupportedEntry,
                        "link entry is not extracted: \""@ + p + seq!['"'],
                    ),
                },
            }
        } else {
            EntryStep::Fail(ExtractionErrorReason::UnsupportedEntry, "unsupported archive entry type"@)
        },
    }
}

/// `a` names a directory that holds `p`, at any depth.
pub open spec fn holds_path(a: Seq<char>, p: Seq<char>) -> bool {
    has_prefix(p, a + "/"@)
}

/// A regular file already written would have to be a directory above `p`.
pub open spec fn file_above(files: Seq<(Seq<char>, Seq<u8>)>, p: Seq<char>) -> bool {
    exists|j: int| 0 <= j < files.len() && holds_path(#[trigger] files[j].0, p)
}

/// A regular file was already written at `p`.
pub open spec fn file_at(files: Seq<(Seq<char>, Seq<u8>)>, p: Seq<char>) -> bool {
    exists|j: int| 0 <= j < files.len() && #[trigger] files[j].0 == p
}

/// `p` is a directory of the extraction root: the root itself, a directory
/// entry, or a directory above a directory entry or a written file.
pub open spec fn dir_at(files: Seq<(Seq<char>, Seq<u8>)>, dirs: Seq<Seq<char>>, p: Seq<char>) -> bool {
    ||| p.len() == 0
    ||| exists|j: int| 0 <= j < dirs.len() && (#[trigger] dirs[j] == p || holds_path(p, dirs[j]))
    ||| exists|j: int| 0 <= j < files.len() && holds_path(p, #[trigger] files[j].0)
}

/// Regular files written (in order) and directories created by the first
/// entries in a fresh extraction root, or the first refusal. A directory
/// cannot be made where a file stands or below one; a file cannot be
/// written below a file, or where a directory stands; a later file at the
/// same path replaces the earlier one.
pub open spec fn walk_entries(es: Seq<TarEntryView>) -> Result<
    (Seq<(Seq<char>, Seq<u8>)>, Seq<Seq<char>>),
    (ExtractionErrorReason, Seq<char>),
>
    decreases es.len(),
{
    if es.len() == 0 {
        Ok((Seq::empty(), Seq::empty()))
    } else {
        match walk_entries(es.drop_last()) {
            Err(e) => Err(e),
            Ok((files, dirs)) => match entry_step(es.last()) {
                EntryStep::Dir(p) => if file_above(files, p) || file_at(files, p) {
                    Err((ExtractionErrorReason::InvalidArchive, "could not create directory \""@ + p + "\""@))
                } else {
                    Ok((files, dirs.push(p)))
                },
                EntryStep::File(p) => if file_above(files, p) {
                    Err((ExtractionErrorReason::InvalidArchive, "could not create parent directory of \""@ + p + "\""@))
                } else if dir_at(files, dirs, p) {
                    Err((ExtractionErrorReason::InvalidArchive, "could not write archive file \""@ + p + "\""@))
                } else {
                    Ok((files.push((p, es.last().data)), dirs))
                },
                EntryStep::Fail(r, d) => Err((r, d)),
            },
        }
    }
}

/// Contents of the last file written at `path`.
pub open spec fn last_file(files: Seq<(Seq<char>, Seq<u8>)>, path: Seq<char>) -> Option<Seq<u8>>
    decreases files.len(),
{
    if files.len() == 0 {
        None
    } else if files.last().0 == path {
        Some(files.last().1)
    } else {
        last_file(files.drop_last(), path)
    }
}

/// Metadata read from the files of an archive: `package/package.json`
/// first, then a root `package.json`.
pub open spec fn metadata_from_files(files: Seq<(Seq<char>, Seq<u8>)>) -> Result<
    MetadataView,
    (ExtractionErrorReason, Seq<char>),
> {
    let (found, path) = match last_file(files, "package/package.json"@) {
        Some(d) => (Some(d), "package/package.json"@),
        None => (last_file(files, "package.json"@), "package.json"@),
    };
    match found {
        None => Err(
            (
                ExtractionErrorReason::MissingPackageJson,
                "package.json was not present in extracted artifact"@,
            ),
        ),
        Some(data) => match utf8_text(data) {
            None => Err(
                (
                    ExtractionErrorReason::MalformedPackageJson,
                    "could not parse package.json: invalid UTF-8"@,
                ),
            ),
            Some(text) => match package_json_model(text, path) {
                Ok(m) => Ok(m),
                Err(d) => Err((ExtractionErrorReason::MalformedPackageJson, d)),
            },
        },
    }
}

/// Outcome of extracting verified gzip tarball bytes: the metadata and the
/// regular-file count, or the reason and diagnostic of the refusal.
pub open spec fn extraction_model(bytes: Seq<u8>) -> Result<
    (MetadataView, nat),
    (ExtractionErrorReason, Seq<char>),
> {
    match gzip_decoded(bytes) {
        Err(m) => Err((ExtractionErrorReason::InvalidArchive, "could not read tar entries: "@ + m)),
        Ok(tar) => {
            let listing = tar_listing(tar);
            match walk_entries(listing.entries) {
                Err(e) => Err(e),
                Ok((files, _)) => match listing.error {
                    Some(m) => Err(
                        (ExtractionErrorReason::InvalidArchive, "could not read tar entry: "@ + m),
                    ),
                    None => match metadata_from_files(files) {
                        Err(e) => Err(e),
                        Ok(meta) => Ok((meta, files.len())),
                    },
                },
            }
        },
    }
}

fn fail(reason: ExtractionErrorReason, detail: String) -> (r: ExtractionError)
    ensures
        r.reason == reason,
        r.detail == detail,
{
    ExtractionError { reason, detail }
}

fn entry_step_exec(e: &TarEntry) -> (r: Result<(bool, String), ExtractionError>)
    ensures
        match (r, entry_step(e@)) {
            (Ok((false, p)), EntryStep::Dir(q)) => p@ == q,
            (Ok((true, p)), EntryStep::File(q)) => p@ == q,
            (Err(x), EntryStep::Fail(reason, d)) => x.reason == reason && x.detail@ == d,
            _ => false,
        },
{
    let p = match normalize_archive_path(e.path.as_str()) {
        Err(d) => return Err(fail(ExtractionErrorReason::UnsafePath, d)),
        Ok(p) => p,
    };
    if e.type_byte == 53 {
        Ok((false, p))
    } else if e.type_byte == 48 {
        Ok((true, p))
    } else if e.type_byte == 49 || e.type_byte == 50 {
        match &e.link_name {
            None => Err(fail(ExtractionErrorReason::UnsafeLink, "link entry had no target".to_owned())),
            Some(l) => match normalize_archive_path(l.as_str()) {
                Err(d) => Err(fail(ExtractionErrorReason::UnsafeLink, concat2("link target is unsafe: ", d.as_str()))),
                Ok(_) => {
                    proof {
                        reveal_strlit("\"");
                        assert("\""@ == seq!['"']);
                    }
                    let head = concat2("link entry is not extracted: \"", p.as_str());
                    Err(fail(ExtractionErrorReason::UnsupportedEntry, concat2(head.as_str(), "\"")))
                },
            },
        }
    } else {
        Err(fail(ExtractionErrorReason::UnsupportedEntry, "unsupported archive entry type".to_owned()))
    }
}

pub open spec fn file_views(v: Seq<(String, Vec<u8>)>) -> Seq<(Seq<char>, Seq<u8>)> {
    v.map_values(|f: (String, Vec<u8>)| (f.0@, f.1@))
}

fn file_above_exec(files: &Vec<(String, Vec<u8>)>, p: &str) -> (r: bool)
    ensures
        r == file_above(file_views(files@), p@),
{
    let ghost fv = file_views(files@);
    let mut j: usize = 0;
    while j < files.len()
        invariant
            j <= files@.len(),
            fv == file_views(files@),
            forall|k: int| 0 <= k < j ==> !holds_path(#[trigger] fv[k].0, p@),
        decreases files@.len() - j,
    {
        let dir = concat2(files[j].0.as_str(), "/");
        assert(fv[j as int].0 == files@[j as int].0@);
        if starts_with(p, dir.as_str()) {
            assert(holds_path(fv[j as int].0, p@));
            return true;
        }
        j = j + 1;
    }
    false
}

fn file_at_exec(files: &Vec<(String, Vec<u8>)>, p: &str) -> (r: bool)
    ensures
        r == file_at(file_views(files@), p@),
{
    let ghost fv = file_views(files@);
    let mut j: usize = 0;
    while j < files.len()
        invariant
            j <= files@.len(),
            fv == file_views(files@),
            forall|k: int| 0 <= k < j ==> #[trigger] fv[k].0 != p@,
        decreases files@.len() - j,
    {
        assert(fv[j as int].0 == files@[j as int].0@);
        if str_eq(files[j].0.as_str(), p) {
            return true;
        }
        j = j + 1;
    }
    false
}

fn dir_at_exec(files: &Vec<(String, Vec<u8>)>, dirs: &Vec<String>, p: &str) -> (r: bool)
    ensures
        r == dir_at(file_views(files@), string_views(dirs@), p@),
{
    let ghost fv = file_views(files@);
    let ghost dv = string_views(dirs@);
    if p.unicode_len() == 0 {
        return true;
    }
    let below = concat2(p, "/");
    let mut j: usize = 0;
    while j < dirs.len()
        invariant
            j <= dirs@.len(),
            dv == string_views(dirs@),
            below@ == p@ + "/"@,
            forall|k: int| 0 <= k < j ==> !(#[trigger] dv[k] == p@ || holds_path(p@, dv[k])),
        decreases dirs@.len() - j,
    {
        assert(dv[j as int] == dirs@[j as int]@);
        if str_eq(dirs[j].as_str(), p) || starts_with(dirs[j].as_str(), below.as_str()) {
            return true;
        }
        j = j + 1;
    }
    let mut j: usize = 0;
    while j < files.len()
        invariant
            j <= files@.len(),
            fv == file_views(files@),
            below@ == p@ + "/"@,
            forall|k: int| 0 <= k < j ==> !holds_path(p@, #[trigger] fv[k].0),
        decreases files@.len() - j,
    {
        assert(fv[j as int].0 == files@[j as int].0@);
        if starts_with(files[j].0.as_str(), below.as_str()) {
            return true;
        }
        j = j + 1;
    }
    false
}

fn quoted_detail(head: &str, p: &str) -> (r: String)
    ensures
        r@ == head@ + p@ + "\""@,
{
    let first = concat2(head, p);
    concat2(first.as_str(), "\"")
}

fn walk_entries_exec(entries: &Vec<TarEntry>) -> (r: Result<Vec<(String, Vec<u8>)>, ExtractionError>)
    ensures
        match (r, walk_entries(entries@.map_values(|e: TarEntry| e@))) {
            (Ok(f), Ok(g)) => file_views(f@) == g.0,
            (Err(x), Err(y)) => x.reason == y.0 && x.detail@ == y.1,
            _ => false,
        },
{
    let ghost es = entries@.map_values(|e: TarEntry| e@);
    let mut files: Vec<(String, Vec<u8>)> = Vec::new();
    let mut dirs: Vec<String> = Vec::new();
    let mut i: usize = 0;
    assert(es.take(0) =~= Seq::<TarEntryView>::empty());
    assert(file_views(files@) =~= Seq::empty());
    assert(string_views(dirs@) =~= Seq::empty());
    while i < entries.len()
        invariant
            i <= entries@.len(),
            es == entries@.map_values(|e: TarEntry| e@),
            walk_entries(es.take(i as int)) == Ok::<
                (Seq<(Seq<char>, Seq<u8>)>, Seq<Seq<char>>),
                (ExtractionErrorReason, Seq<char>),
            >((file_views(files@), string_views(dirs@))),
        decreases entries@.len() - i,
    {
        proof {
            assert(es.take(i + 1).drop_last() == es.take(i as int));
            assert(es.take(i + 1).last() == entries@[i as int]@);
        }
        let step = entry_step_exec(&entries[i]);
        let failure = match step {
            Ok((false, p)) => {
                if file_above_exec(&files, p.as_str()) || file_at_exec(&files, p.as_str()) {
                    Some(fail(ExtractionErrorReason::InvalidArchive, quoted_detail("could not create directory \"", p.as_str())))
                } else {
                    proof {
                        assert(string_views(dirs@.push(p)) =~= string_views(dirs@).push(p@));
                    }
                    dirs.push(p);
                    None
                }
            },
            Ok((true, p)) => {
                if file_above_exec(&files, p.as_str()) {
                    Some(fail(
                        ExtractionErrorReason::InvalidArchive,
                        quoted_detail("could not create parent directory of \"", p.as_str()),
                    ))
                } else if dir_at_exec(&files, &dirs, p.as_str()) {
                    Some(fail(ExtractionErrorReason::InvalidArchive, quoted_detail("could not write archive file \"", p.as_str())))
                } else {
                    let data = entries[i].data.clone();
                    proof {
                        assert(file_views(files@.push((p, data))) =~= file_views(files@).push((p@, data@)));
                    }
                    files.push((p, data));
                    None
                }
            },
            Err(x) => Some(x),
        };
        if let Some(x) = failure {
            proof {
                lemma_walk_err_persists(es, (i + 1) as nat);
            }
            return Err(x);
        }
        i = i + 1;
    }
    assert(es.take(es.len() as int) == es);
    Ok(files)
}

proof fn lemma_walk_err_persists(es: Seq<TarEntryView>, n: nat)
    requires
        n <= es.len(),
        walk_entries(es.take(n as int)) is Err,
    ensures
        walk_entries(es) == walk_entries(es.take(n as int)),
    decreases es.len() - n,
{
    if n < es.len() {
        assert(es.take((n + 1) as int).drop_last() == es.take(n as int));
        lemma_walk_err_persists(es, n + 1);
    } else {
        assert(es.take(n as int) == es);
    }
}

fn last_file_exec<'a>(files: &'a Vec<(String, Vec<u8>)>, path: &str) -> (r: Option<&'a Vec<u8>>)
    ensures
        match (r, last_file(file_views(files@), path@)) {
            (Some(d), Some(e)) => d@ == e,
            (None, None) => true,
            _ => false,
        },
{
    let ghost fv = file_views(files@);
    let mut i: usize = files.len();
    assert(fv.take(fv.len() as int) == fv);
    while i > 0
        invariant
            i <= files@.len(),
            fv == file_views(files@),
            last_file(fv, path@) == last_file(fv.take(i as int), path@),
        decreases i,
    {
        proof {
            assert(fv.take(i as int).drop_last() == fv.take(i - 1));
            assert(fv.take(i as int).last() == (files@[i - 1].0@, files@[i - 1].1@));
        }
        if str_eq(files[i - 1].0.as_str(), path) {
            return Some(&files[i - 1].1);
        }
        i = i - 1;
    }
    None
}

fn metadata_from_files_exec(files: &Vec<(String, Vec<u8>)>) -> (r: Result<ExtractedPackageMetadata, ExtractionError>)
    ensures
        match (r, metadata_from_files(file_views(files@))) {
            (Ok(m), Ok(w)) => m@ == w,
            (Err(x), Err(y)) => x.reason == y.0 && x.detail@ == y.1,
            _ => false,
        },
        r matches Ok(m) ==> metadata_keys_ordered(m@),
{
    let (found, path) = match last_file_exec(files, "package/package.json") {
        Some(d) => (Some(d), "package/package.json"),
        None => (last_file_exec(files, "package.json"), "package.json"),
    };
    let data = match found {
        None => return Err(fail(
            ExtractionErrorReason::MissingPackageJson,
            "package.json was not present in extracted artifact".to_owned(),
        )),
        Some(d) => d,
    };
    let text = match utf8(data.as_slice()) {
        None => return Err(fail(
            ExtractionErrorReason::MalformedPackageJson,
            "could not parse package.json: invalid UTF-8".to_owned(),
        )),
        Some(t) => t,
    };
    match parse_package_json(text.as_str(), path) {
        Ok(m) => Ok(m),
        Err(d) => Err(fail(ExtractionErrorReason::MalformedPackageJson, d)),
    }
}

/// Extract a verified root artifact: read the archive, refuse unsafe
/// paths, links and special entries, and entries that a fresh extraction
/// root could not hold (a file where a directory must be, or the reverse),
/// and read its package metadata.
pub fn extract_verified_root_artifact(tarball_bytes: &[u8], artifact: ArtifactIdentity) -> (r: Result<
    ExtractedRootArtifact,
    ExtractionError,
>)
    ensures
        match (r, extraction_model(tarball_bytes@)) {
            (Ok(x), Ok((meta, count))) => x.metadata@ == meta && x.file_count == count
                && x.artifact_size_bytes == tarball_bytes@.len() && x.artifact == artifact,
            (Err(x), Err(y)) => x.reason == y.0 && x.detail@ == y.1,
            _ => false,
        },
        r matches Ok(x) ==> metadata_keys_ordered(x.metadata@),
{
    let tar = match gunzip(tarball_bytes) {
        Err(m) => return Err(fail(ExtractionErrorReason::InvalidArchive, concat2("could not read tar entries: ", m.as_str()))),
        Ok(t) => t,
    };
    let listing = untar(tar.as_slice());
    let files = match walk_entries_exec(&listing.entries) {
        Err(x) => return Err(x),
        Ok(f) => f,
    };
    if let Some(m) = &listing.error {
        return Err(fail(ExtractionErrorReason::InvalidArchive, concat2("could not read tar entry: ", m.as_str())));
    }
    let metadata = match metadata_from_files_exec(&files) {
        Err(x) => return Err(x),
        Ok(m) => m,
    };
    Ok(ExtractedRootArtifact {
        artifact,
        metadata,
        artifact_size_bytes: tarball_bytes.len(),
        file_count: files.len(),
    })
}

/// Extract verified bytes for inspect reporting.
pub fn extract_for_inspect(artifact_bytes: &[u8], artifact_identity: &ArtifactIdentity) -> (r: Result<
    StaticExtractionEvidence,
    ExtractionError,
>)
    ensures
        match (r, extraction_model(artifact_bytes@)) {
            (Ok(x), Ok((meta, count))) => x.metadata@ == meta && x.file_count == count
                && x.artifact_size_bytes == artifact_bytes@.len() && x.status@ == "extracted"@,
            (Err(x), Err(y)) => x.reason == y.0 && x.detail@ == y.1,
            _ => false,
        },
        r matches Ok(x) ==> metadata_keys_ordered(x.metadata@),
{
    match extract_verified_root_artifact(artifact_bytes, artifact_identity.clone()) {
        Ok(x) => Ok(StaticExtractionEvidence {
            metadata: x.metadata,
            artifact_size_bytes: x.artifact_size_bytes,
            file_count: x.file_count,
            status: "extracted",
        }),
        Err(e) => Err(e),
    }
}

/// One `name -> value` line of a listing.
pub open spec fn pair_line(p: (Seq<char>, Seq<char>)) -> Seq<char> {
    "  "@ + p.0 + " -> "@ + p.1 + "\n"@
}

/// `name -> value` lines of a listing.
pub open spec fn pair_lines(ps: Seq<(Seq<char>, Seq<char>)>) -> Seq<char>
    decreases ps.len(),
{
    if ps.len() == 0 {
        Seq::empty()
    } else {
        pair_lines(ps.drop_last()) + pair_line(ps.last())
    }
}

/// Debug name of a dependency declaration kind.
pub open spec fn kind_debug(k: DependencyDeclarationKind) -> Seq<char> {
    match k {
        DependencyDeclarationKind::Runtime => "Runtime"@,
        DependencyDeclarationKind::Optional => "Optional"@,
        DependencyDeclarationKind::Peer => "Peer"@,
        DependencyDeclarationKind::PeerMetadata => "PeerMetadata"@,
        DependencyDeclarationKind::Development => "Development"@,
        DependencyDeclarationKind::Bundled => "Bundled"@,
    }
}

fn kind_debug_name(k: DependencyDeclarationKind) -> (r: &'static str)
    ensures
        r@ == kind_debug(k),
{
    match k {
        DependencyDeclarationKind::Runtime => "Runtime",
        DependencyDeclarationKind::Optional => "Optional",
        DependencyDeclarationKind::Peer => "Peer",
        DependencyDeclarationKind::PeerMetadata => "PeerMetadata",
        DependencyDeclarationKind::Development => "Development",
        DependencyDeclarationKind::Bundled => "Bundled",
    }
}

/// One dependency declaration line.
pub open spec fn declaration_line(d: DeclarationView) -> Seq<char> {
    "  "@ + d.name + " ("@ + kind_debug(d.kind) + ") "@ + d.requirement + " [declaration_only]\n"@
}

/// Dependency declaration lines.
pub open spec fn declaration_lines(ds: Seq<DeclarationView>) -> Seq<char>
    decreases ds.len(),
{
    if ds.len() == 0 {
        Seq::empty()
    } else {
        declaration_lines(ds.drop_last()) + declaration_line(ds.last())
    }
}

/// Human lines of static extraction evidence: status, location, sizes, and
/// the binaries, lifecycle scripts and dependency declarations found.
pub open spec fn static_extraction_text(e: Option<StaticExtractionEvidence>) -> Seq<char> {
    match e {
        None => Seq::empty(),
        Some(x) => "Static extraction: "@ + x.status@ + "\nPackage metadata: "@
            + x.metadata.package_json_path@ + "\nPackage size: "@ + crate::numbers::decimal(
            x.artifact_size_bytes as nat,
        ) + " bytes\nPackage files: "@ + crate::numbers::decimal(x.file_count as nat)
            + "\nBins: "@ + crate::numbers::decimal(entries_in_key_order(x.metadata@.bins).len()) + "\n"@
            + pair_lines(entries_in_key_order(x.metadata@.bins)) + "Lifecycle scripts: "@
            + crate::numbers::decimal(entries_in_key_order(x.metadata@.lifecycle_scripts).len()) + "\n"@
            + pair_lines(entries_in_key_order(x.metadata@.lifecycle_scripts)) + "Dependency declarations: "@
            + crate::numbers::decimal(x.metadata.dependency_declarations@.len()) + "\n"@
            + declaration_lines(x.metadata@.dependency_declarations),
    }
}

fn render_pairs(out: &mut String, pairs: &Vec<(String, String)>)
    ensures
        final(out)@ == old(out)@ + pair_lines(crate::evidence::pair_views(pairs@)),
{
    let ghost ps = crate::evidence::pair_views(pairs@);
    let ghost start = out@;
    let mut i: usize = 0;
    while i < pairs.len()
        invariant
            i <= pairs@.len(),
            ps == crate::evidence::pair_views(pairs@),
            out@ == start + pair_lines(ps.subrange(0, i as int)),
        decreases pairs@.len() - i,
    {
        out.append("  ");
        out.append(pairs[i].0.as_str());
        out.append(" -> ");
        out.append(pairs[i].1.as_str());
        out.append("\n");
        assert(ps.subrange(0, i + 1).drop_last() == ps.subrange(0, i as int));
        assert(ps.subrange(0, i + 1).last() == (pairs@[i as int].0@, pairs@[i as int].1@));
        i = i + 1;
    }
    assert(ps.subrange(0, ps.len() as int) == ps);
}

fn render_declarations(out: &mut String, decls: &Vec<ExtractedDependencyDeclaration>)
    ensures
        final(out)@ == old(out)@ + declaration_lines(
            decls@.map_values(|d: ExtractedDependencyDeclaration| d@),
        ),
{
    let ghost ds = decls@.map_values(|d: ExtractedDependencyDeclaration| d@);
    let ghost start = out@;
    let mut i: usize = 0;
    while i < decls.len()
        invariant
            i <= decls@.len(),
            ds == decls@.map_values(|d: ExtractedDependencyDeclaration| d@),
            out@ == start + declaration_lines(ds.subrange(0, i as int)),
        decreases decls@.len() - i,
    {
        out.append("  ");
        out.append(decls[i].name.as_str());
        out.append(" (");
        out.append(kind_debug_name(decls[i].kind));
        out.append(") ");
        out.append(decls[i].requirement.as_str());
        out.append(" [declaration_only]\n");
        assert(ds.subrange(0, i + 1).drop_last() == ds.subrange(0, i as int));
        assert(ds.subrange(0, i + 1).last() == decls@[i as int]@);
        i = i + 1;
    }
    assert(ds.subrange(0, ds.len() as int) == ds);
}

/// Render optional static extraction evidence for human reports.
pub fn render_static_extraction(static_extraction: Option<&StaticExtractionEvidence>) -> (r: String)
    ensures
        r@ == static_extraction_text(match static_extraction {
            Some(x) => Some(*x),
            None => None,
        }),
{
    let x = match static_extraction {
        None => return String::new(),
        Some(x) => x,
    };
    let mut out = String::new();
    out.append("Static extraction: ");
    out.append(x.status);
    out.append("\nPackage metadata: ");
    out.append(x.metadata.package_json_path.as_str());
    out.append("\nPackage size: ");
    out.append(crate::numbers::u64_to_decimal(x.artifact_size_bytes as u64).as_str());
    out.append(" bytes\nPackage files: ");
    out.append(crate::numbers::u64_to_decimal(x.file_count as u64).as_str());
    out.append("\nBins: ");
    let bins = pairs_in_key_order(&x.metadata.bins);
    assert(crate::evidence::pair_views(bins@).len() == bins@.len());
    out.append(crate::numbers::u64_to_decimal(bins.len() as u64).as_str());
    out.append("\n");
    render_pairs(&mut out, &bins);
    out.append("Lifecycle scripts: ");
    let scripts = pairs_in_key_order(&x.metadata.lifecycle_scripts);
    assert(crate::evidence::pair_views(scripts@).len() == scripts@.len());
    out.append(crate::numbers::u64_to_decimal(scripts.len() as u64).as_str());
    out.append("\n");
    render_pairs(&mut out, &scripts);
    out.append("Dependency declarations: ");
    out.append(crate::numbers::u64_to_decimal(x.metadata.dependency_declarations.len() as u64).as_str());
    out.append("\n");
    render_declarations(&mut out, &x.metadata.dependency_declarations);
    out
}

} // verus!
