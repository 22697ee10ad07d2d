//! Local package-spec classification for the exact-version resolver surface.

use vstd::prelude::*;
use crate::contracts::{
    CommandIntent, M1Reason, MalformedSpec, PackageSpec, PackageSpecParse, PackageSpecView,
    ParseView, UnsupportedSpec, UnsupportedSpecCategory,
};
use crate::text::{
    char_is_ws, contains_char, contains_str, ends_with, has_infix, has_prefix, has_suffix, is_ws,
    lemma_index_of_absent, lemma_split_after,
    rsplit_once, rsplit_once_str, split, split_once, split_once_str, split_str, starts_with,
    str_eq, trim, trim_str, views,
};

verus! {

pub open spec fn is_ascii_digit(c: char) -> bool {
    '0' <= c && c <= '9'
}

pub open spec fn is_ascii_alpha(c: char) -> bool {
    ('a' <= c && c <= 'z') || ('A' <= c && c <= 'Z')
}

pub open spec fn is_ascii_alnum(c: char) -> bool {
    is_ascii_digit(c) || is_ascii_alpha(c)
}

/// Every character of `s` is an ASCII digit.
pub open spec fn all_digits(s: Seq<char>) -> bool {
    forall|i: int| 0 <= i < s.len() ==> is_ascii_digit(#[trigger] s[i])
}

/// Every character of `s` is ASCII alphanumeric or `-`.
pub open spec fn all_ident_chars(s: Seq<char>) -> bool {
    forall|i: int| 0 <= i < s.len() ==> is_ascii_alnum(#[trigger] s[i]) || s[i] == '-'
}

/// SemVer numeric identifier: digits without a leading zero (except `0`).
pub open spec fn valid_numeric_identifier(s: Seq<char>) -> bool {
    s.len() > 0 && all_digits(s) && (s == seq!['0'] || s[0] != '0')
}

/// One dot-separated prerelease or build identifier.
pub open spec fn valid_dot_part(p: Seq<char>, enforce_numeric: bool) -> bool {
    p.len() > 0 && all_ident_chars(p) && (!enforce_numeric || !all_digits(p)
        || valid_numeric_identifier(p))
}

/// Dot-separated prerelease or build identifiers.
pub open spec fn valid_dot_identifiers(s: Seq<char>, enforce_numeric: bool) -> bool {
    s.len() > 0 && forall|k: int|
        0 <= k < split(s, '.').len() ==> valid_dot_part(#[trigger] split(s, '.')[k], enforce_numeric)
}

/// A prerelease or build of one identifier (no dot in it) is valid exactly
/// when that identifier is.
pub proof fn law_single_identifier_is_valid(p: Seq<char>, enforce_numeric: bool)
    requires
        !p.contains('.'),
    ensures
        valid_dot_identifiers(p, enforce_numeric) <==> valid_dot_part(p, enforce_numeric),
{
    lemma_index_of_absent(p, '.');
    assert(split(p, '.')[0] == p);
}

/// Dot-separated identifiers are valid exactly when the first identifier
/// is, and the rest after the dot are.
pub proof fn law_dotted_identifiers(first: Seq<char>, rest: Seq<char>, enforce_numeric: bool)
    requires
        !first.contains('.'),
    ensures
        valid_dot_identifiers(first + seq!['.'] + rest, enforce_numeric) <==> (valid_dot_part(
            first,
            enforce_numeric,
        ) && valid_dot_identifiers(rest, enforce_numeric)),
{
    lemma_split_after(first, '.', rest);
    let whole = split(first + seq!['.'] + rest, '.');
    let tail = split(rest, '.');
    assert(whole == seq![first] + tail);
    assert(whole[0] == first);
    assert forall|k: int| 0 <= k < tail.len() implies #[trigger] tail[k] == whole[k + 1] by {}
    if rest.len() == 0 {
        lemma_index_of_absent(rest, '.');
        assert(tail[0] == rest);
        assert(!valid_dot_part(whole[1], enforce_numeric));
    }
    if valid_dot_part(first, enforce_numeric) && valid_dot_identifiers(rest, enforce_numeric) {
        assert forall|k: int| 0 <= k < whole.len() implies valid_dot_part(#[trigger] whole[k], enforce_numeric) by {
            if k > 0 {
                assert(whole[k] == tail[k - 1]);
            }
        }
    }
}

proof fn lemma_digits_exclude(x: Seq<char>, ch: char)
    requires
        all_digits(x),
        !is_ascii_digit(ch),
    ensures
        !x.contains(ch),
{
    if x.contains(ch) {
        let j = choose|j: int| 0 <= j < x.len() && x[j] == ch;
        assert(is_ascii_digit(x[j]));
    }
}

/// `a.b.c` of numeric identifiers holds no character other than digits and dots.
proof fn lemma_core_excludes(a: Seq<char>, b: Seq<char>, c: Seq<char>, ch: char)
    requires
        all_digits(a),
        all_digits(b),
        all_digits(c),
        ch != '.',
        !is_ascii_digit(ch),
    ensures
        !(a + seq!['.'] + b + seq!['.'] + c).contains(ch),
{
    let core = a + seq!['.'] + b + seq!['.'] + c;
    lemma_digits_exclude(a, ch);
    lemma_digits_exclude(b, ch);
    lemma_digits_exclude(c, ch);
    if core.contains(ch) {
        let j = choose|j: int| 0 <= j < core.len() && core[j] == ch;
        if j < a.len() {
            assert(core[j] == a[j]);
        } else if j == a.len() {
            assert(core[j] == '.');
        } else if j < a.len() + 1 + b.len() {
            assert(core[j] == b[j - a.len() - 1]);
        } else if j == a.len() + 1 + b.len() {
            assert(core[j] == '.');
        } else {
            assert(core[j] == c[j - a.len() - 2 - b.len()]);
        }
    }
}

/// An exact version `MAJOR.MINOR.PATCH` of numeric identifiers is exact
/// SemVer, and so is it followed by `-` and any valid prerelease (dotted
/// identifiers, numeric ones without a leading zero) that holds no `+`.
pub proof fn law_exact_semver_with_prerelease(a: Seq<char>, b: Seq<char>, c: Seq<char>, pre: Seq<char>)
    requires
        valid_numeric_identifier(a),
        valid_numeric_identifier(b),
        valid_numeric_identifier(c),
        valid_dot_identifiers(pre, true),
        !pre.contains('+'),
    ensures
        is_exact_semver(a + seq!['.'] + b + seq!['.'] + c),
        is_exact_semver(a + seq!['.'] + b + seq!['.'] + c + seq!['-'] + pre),
{
    let core = a + seq!['.'] + b + seq!['.'] + c;
    let v = core + seq!['-'] + pre;
    lemma_core_excludes(a, b, c, '+');
    lemma_core_excludes(a, b, c, '-');
    lemma_digits_exclude(a, '.');
    lemma_digits_exclude(b, '.');
    lemma_digits_exclude(c, '.');
    // The pieces of the core are its three numbers.
    lemma_split_after(a, '.', b + seq!['.'] + c);
    lemma_split_after(b, '.', c);
    lemma_index_of_absent(c, '.');
    assert(core == a + seq!['.'] + (b + seq!['.'] + c));
    assert(split(core, '.') =~= seq![a, b, c]);
    // The bare core has neither a build nor a prerelease.
    lemma_index_of_absent(core, '+');
    lemma_index_of_absent(core, '-');
    // With a prerelease: no build, and the first `-` ends the core.
    assert(!v.contains('+')) by {
        if v.contains('+') {
            let j = choose|j: int| 0 <= j < v.len() && v[j] == '+';
            if j < core.len() {
                assert(v[j] == core[j]);
            } else if j == core.len() {
                assert(v[j] == '-');
            } else {
                assert(v[j] == pre[j - core.len() - 1]);
            }
        }
    }
    lemma_index_of_absent(v, '+');
    lemma_split_after(core, '-', pre);
}

/// `MAJOR.MINOR.PATCH-IDENT` is exact SemVer for any single prerelease
/// identifier: alphanumerics and `-`, no leading zero when all digits.
pub proof fn law_exact_semver_with_single_prerelease(a: Seq<char>, b: Seq<char>, c: Seq<char>, ident: Seq<char>)
    requires
        valid_numeric_identifier(a),
        valid_numeric_identifier(b),
        valid_numeric_identifier(c),
        valid_dot_part(ident, true),
        !ident.contains('.'),
    ensures
        is_exact_semver(a + seq!['.'] + b + seq!['.'] + c + seq!['-'] + ident),
{
    law_single_identifier_is_valid(ident, true);
    assert(!ident.contains('+')) by {
        if ident.contains('+') {
            let j = choose|j: int| 0 <= j < ident.len() && ident[j] == '+';
            assert(is_ascii_alnum(ident[j]) || ident[j] == '-');
        }
    }
    law_exact_semver_with_prerelease(a, b, c, ident);
}

/// Split at the first `c`, keeping the missing suffix explicit.
pub open spec fn split_once_optional(s: Seq<char>, c: char) -> (Seq<char>, Option<Seq<char>>) {
    match split_once(s, c) {
        Some((h, t)) => (h, Some(t)),
        None => (s, None),
    }
}

/// Exact SemVer version: `MAJOR.MINOR.PATCH[-PRERELEASE][+BUILD]`.
pub open spec fn is_exact_semver(v: Seq<char>) -> bool {
    let (without_build, build) = split_once_optional(v, '+');
    let (core, pre) = split_once_optional(without_build, '-');
    let parts = split(core, '.');
    &&& (build matches Some(b) ==> valid_dot_identifiers(b, false))
    &&& (pre matches Some(p) ==> valid_dot_identifiers(p, true))
    &&& parts.len() == 3
    &&& valid_numeric_identifier(parts[0])
    &&& valid_numeric_identifier(parts[1])
    &&& valid_numeric_identifier(parts[2])
}

pub open spec fn is_npm_exec_variant(s: Seq<char>) -> bool {
    ||| s == "npm"@ || s == "npx"@ || s == "npm-exec"@
    ||| has_prefix(s, "npm "@) || has_prefix(s, "npx "@) || has_prefix(s, "npm-exec "@)
}

pub open spec fn is_tarball_url(s: Seq<char>) -> bool {
    (has_prefix(s, "https://"@) || has_prefix(s, "http://"@)) && has_suffix(s, ".tgz"@)
}

pub open spec fn is_git_spec(s: Seq<char>) -> bool {
    ||| has_prefix(s, "git+"@) || has_prefix(s, "git://"@) || has_prefix(s, "github:"@)
    ||| has_prefix(s, "gitlab:"@) || has_prefix(s, "bitbucket:"@) || has_suffix(s, ".git"@)
}

/// A Windows drive prefix: `C:\`, `C:/`, or drive-relative `C:name`.
pub open spec fn is_windows_drive_path(s: Seq<char>) -> bool {
    s.len() >= 2 && is_ascii_alpha(s[0]) && s[1] == ':'
}

pub open spec fn is_local_path(s: Seq<char>) -> bool {
    ||| s == "."@ || s == ".."@
    ||| has_prefix(s, "./"@) || has_prefix(s, "../"@) || has_prefix(s, ".\\"@) || has_prefix(
        s,
        "..\\"@,
    )
    ||| has_prefix(s, "/"@) || s.contains('\\') || has_prefix(s, "file:"@)
    ||| is_windows_drive_path(s)
}

pub open spec fn is_alias_spec(s: Seq<char>) -> bool {
    has_infix(s, "npm:"@)
}

pub open spec fn is_unversioned_name(s: Seq<char>) -> bool {
    if s.len() > 0 && s[0] == '@' {
        match split_once(s.drop_first(), '/') {
            None => false,
            Some((scope, package)) => !s.drop_first().contains('@') && scope.len() > 0
                && package.len() > 0,
        }
    } else {
        !s.contains('@')
    }
}

/// More than one whitespace-separated token in a trimmed, non-empty spec.
pub open spec fn has_inner_whitespace(s: Seq<char>) -> bool {
    exists|i: int| 0 <= i < s.len() && is_ws(#[trigger] s[i])
}

/// Outcome of parsing a spec that looks like it carries a version.
pub open spec fn exact_spec_model(s: Seq<char>) -> Option<ParseView> {
    if s.len() > 0 && s[0] == '@' {
        match rsplit_once(s, '@') {
            None => None,
            Some((name, version)) => if version.len() == 0 {
                None
            } else if name.len() == 0 || name[0] != '@' {
                None
            } else {
                match split_once(name.drop_first(), '/') {
                    None => None,
                    Some((scope, package)) => if scope.len() == 0 || package.len() == 0 {
                        None
                    } else if package.contains('/') {
                        Some(ParseView::Unsupported(UnsupportedSpecCategory::Other))
                    } else if !is_exact_semver(version) {
                        Some(ParseView::Unsupported(UnsupportedSpecCategory::VersionRange))
                    } else {
                        Some(
                            ParseView::Supported(
                                PackageSpecView {
                                    raw: s,
                                    name: name,
                                    version: version,
                                    scope: Some(scope),
                                },
                            ),
                        )
                    },
                }
            },
        }
    } else {
        match rsplit_once(s, '@') {
            None => None,
            Some((name, version)) => if name.len() == 0 || version.len() == 0 {
                None
            } else if name.contains('/') {
                Some(ParseView::Unsupported(UnsupportedSpecCategory::Other))
            } else if !is_exact_semver(version) {
                Some(ParseView::Unsupported(UnsupportedSpecCategory::VersionRange))
            } else {
                Some(
                    ParseView::Supported(
                        PackageSpecView { raw: s, name: name, version: version, scope: None },
                    ),
                )
            },
        }
    }
}

/// The classification rules, applied in order to the trimmed spec.
pub open spec fn classify_model(raw: Seq<char>) -> ParseView {
    let s = trim(raw);
    if s.len() == 0 {
        ParseView::Malformed(raw)
    } else if is_npm_exec_variant(s) {
        ParseView::Unsupported(UnsupportedSpecCategory::NpmExecVariant)
    } else if has_inner_whitespace(s) {
        ParseView::Unsupported(UnsupportedSpecCategory::MultipleSpecs)
    } else if is_tarball_url(s) {
        ParseView::Unsupported(UnsupportedSpecCategory::TarballUrl)
    } else if is_git_spec(s) {
        ParseView::Unsupported(UnsupportedSpecCategory::GitUrl)
    } else if is_local_path(s) {
        ParseView::Unsupported(UnsupportedSpecCategory::LocalPath)
    } else if is_alias_spec(s) {
        ParseView::Unsupported(UnsupportedSpecCategory::Alias)
    } else if is_unversioned_name(s) {
        ParseView::Unsupported(UnsupportedSpecCategory::UnversionedName)
    } else {
        match exact_spec_model(s) {
            Some(p) => p,
            None => ParseView::Malformed(raw),
        }
    }
}

/// Parse the command intent without touching registry or artifact code.
pub fn parse_command_intent(raw_spec: &str, forwarded_args: Vec<String>) -> (r: CommandIntent)
    ensures
        r.package_spec@ == classify_model(raw_spec@),
        r.package_spec.well_formed(),
        r.requested@ == match r.package_spec {
            PackageSpecParse::Supported(p) => p.raw@,
            _ => raw_spec@,
        },
        r.package_spec is Supported ==> r.forwarded_args == forwarded_args,
        !(r.package_spec is Supported) ==> r.forwarded_args@.len() == 0,
{
    match classify_package_spec(raw_spec) {
        PackageSpecParse::Supported(package_spec) => {
            CommandIntent::supported(package_spec, forwarded_args)
        },
        PackageSpecParse::Unsupported(unsupported) => {
            CommandIntent::unsupported(raw_spec.to_owned(), unsupported)
        },
        PackageSpecParse::Malformed(malformed) => {
            CommandIntent::malformed(raw_spec.to_owned(), malformed)
        },
    }
}

/// Classify a package spec inside the supported/unsupported matrix.
pub fn classify_package_spec(raw_spec: &str) -> (r: PackageSpecParse)
    ensures
        r@ == classify_model(raw_spec@),
        r.well_formed(),
{
    let s = trim_str(raw_spec);
    if s.unicode_len() == 0 {
        return malformed(raw_spec);
    }
    if is_npm_exec_variant_str(s) {
        return unsupported(UnsupportedSpecCategory::NpmExecVariant);
    }
    if has_inner_whitespace_str(s) {
        return unsupported(UnsupportedSpecCategory::MultipleSpecs);
    }
    if is_tarball_url_str(s) {
        return unsupported(UnsupportedSpecCategory::TarballUrl);
    }
    if is_git_spec_str(s) {
        return unsupported(UnsupportedSpecCategory::GitUrl);
    }
    if is_local_path_str(s) {
        return unsupported(UnsupportedSpecCategory::LocalPath);
    }
    if contains_str(s, "npm:") {
        return unsupported(UnsupportedSpecCategory::Alias);
    }
    if is_unversioned_name_str(s) {
        return unsupported(UnsupportedSpecCategory::UnversionedName);
    }
    match parse_exact_package_spec(s) {
        Some(p) => p,
        None => malformed(raw_spec),
    }
}

fn parse_exact_package_spec(s: &str) -> (r: Option<PackageSpecParse>)
    requires
        s@.len() > 0,
    ensures
        match (r, exact_spec_model(s@)) {
            (Some(p), Some(m)) => p@ == m && p.well_formed(),
            (None, None) => true,
            _ => false,
        },
{
    if s.get_char(0) == '@' {
        return parse_scoped_exact_package_spec(s);
    }
    let (name, version) = match rsplit_once_str(s, '@') {
        Some(pair) => pair,
        None => return None,
    };
    if name.unicode_len() == 0 {
        return None;
    }
    if version.unicode_len() == 0 {
        return None;
    }
    if contains_char(name, '/') {
        return Some(unsupported(UnsupportedSpecCategory::Other));
    }
    if !is_exact_semver_str(version) {
        return Some(unsupported(UnsupportedSpecCategory::VersionRange));
    }
    Some(PackageSpecParse::Supported(PackageSpec::exact(s, name, version, None)))
}

fn parse_scoped_exact_package_spec(s: &str) -> (r: Option<PackageSpecParse>)
    requires
        s@.len() > 0,
        s@[0] == '@',
    ensures
        match (r, exact_spec_model(s@)) {
            (Some(p), Some(m)) => p@ == m && p.well_formed(),
            (None, None) => true,
            _ => false,
        },
{
    let (name, version) = match rsplit_once_str(s, '@') {
        Some(pair) => pair,
        None => return None,
    };
    if version.unicode_len() == 0 {
        return None;
    }
    let n = name.unicode_len();
    if n == 0 || name.get_char(0) != '@' {
        return None;
    }
    let unscoped = name.substring_char(1, n);
    assert(unscoped@ == name@.drop_first());
    let (scope, package) = match split_once_str(unscoped, '/') {
        Some(pair) => pair,
        None => return None,
    };
    if scope.unicode_len() == 0 || package.unicode_len() == 0 {
        return None;
    }
    if contains_char(package, '/') {
        return Some(unsupported(UnsupportedSpecCategory::Other));
    }
    if !is_exact_semver_str(version) {
        return Some(unsupported(UnsupportedSpecCategory::VersionRange));
    }
    let scope_owned = scope.to_owned();
    proof {
        assert(Some(scope_owned).deep_view() == Some(scope@));
    }
    Some(PackageSpecParse::Supported(PackageSpec::exact(s, name, version, Some(scope_owned))))
}

fn unsupported(category: UnsupportedSpecCategory) -> (r: PackageSpecParse)
    ensures
        r@ == ParseView::Unsupported(category),
        r.well_formed(),
{
    PackageSpecParse::Unsupported(
        UnsupportedSpec { reason: M1Reason::UnsupportedSpec, category, downloaded: false },
    )
}

fn malformed(raw: &str) -> (r: PackageSpecParse)
    ensures
        r@ == ParseView::Malformed(raw@),
        r.well_formed(),
{
    PackageSpecParse::Malformed(
        MalformedSpec { reason: M1Reason::MalformedSpec, raw: raw.to_owned(), downloaded: false },
    )
}

fn char_is_digit(c: char) -> (r: bool)
    ensures
        r == is_ascii_digit(c),
{
    '0' <= c && c <= '9'
}

fn char_is_alpha(c: char) -> (r: bool)
    ensures
        r == is_ascii_alpha(c),
{
    ('a' <= c && c <= 'z') || ('A' <= c && c <= 'Z')
}

fn all_digits_str(s: &str) -> (r: bool)
    ensures
        r == all_digits(s@),
{
    let n = s.unicode_len();
    let mut i: usize = 0;
    while i < n
        invariant
            n == s@.len(),
            i <= n,
            forall|j: int| 0 <= j < i ==> is_ascii_digit(#[trigger] s@[j]),
        decreases n - i,
    {
        if !char_is_digit(s.get_char(i)) {
            return false;
        }
        i = i + 1;
    }
    true
}

fn all_ident_chars_str(s: &str) -> (r: bool)
    ensures
        r == all_ident_chars(s@),
{
    let n = s.unicode_len();
    let mut i: usize = 0;
    while i < n
        invariant
            n == s@.len(),
            i <= n,
            forall|j: int| 0 <= j < i ==> is_ascii_alnum(#[trigger] s@[j]) || s@[j] == '-',
        decreases n - i,
    {
        let c = s.get_char(i);
        if !(char_is_digit(c) || char_is_alpha(c) || c == '-') {
            return false;
        }
        i = i + 1;
    }
    true
}

fn valid_numeric_identifier_str(s: &str) -> (r: bool)
    ensures
        r == valid_numeric_identifier(s@),
{
    let n = s.unicode_len();
    if n == 0 || !all_digits_str(s) {
        return false;
    }
    let first = s.get_char(0);
    if first != '0' {
        return true;
    }
    if n == 1 {
        assert(s@ == seq!['0']);
        true
    } else {
        assert(s@ != seq!['0']);
        false
    }
}

fn valid_dot_identifiers_str(s: &str, enforce_numeric: bool) -> (r: bool)
    ensures
        r == valid_dot_identifiers(s@, enforce_numeric),
{
    if s.unicode_len() == 0 {
        return false;
    }
    let parts = split_str(s, '.');
    let mut k: usize = 0;
    while k < parts.len()
        invariant
            views(parts@) == split(s@, '.'),
            k <= parts@.len(),
            forall|j: int| 0 <= j < k ==> valid_dot_part(#[trigger] split(s@, '.')[j], enforce_numeric),
        decreases parts@.len() - k,
    {
        let part = parts[k];
        assert(part@ == split(s@, '.')[k as int]);
        let ok = part.unicode_len() > 0 && all_ident_chars_str(part) && (!enforce_numeric
            || !all_digits_str(part) || valid_numeric_identifier_str(part));
        if !ok {
            return false;
        }
        k = k + 1;
    }
    true
}

fn split_once_optional_str(s: &str, c: char) -> (r: (&str, Option<&str>))
    ensures
        r.0@ == split_once_optional(s@, c).0,
        match (r.1, split_once_optional(s@, c).1) {
            (Some(a), Some(b)) => a@ == b,
            (None, None) => true,
            _ => false,
        },
{
    match split_once_str(s, c) {
        Some((h, t)) => (h, Some(t)),
        None => (s, None),
    }
}

fn is_exact_semver_str(v: &str) -> (r: bool)
    ensures
        r == is_exact_semver(v@),
{
    let (without_build, build) = split_once_optional_str(v, '+');
    if let Some(b) = build {
        if !valid_dot_identifiers_str(b, false) {
            return false;
        }
    }
    let (core, pre) = split_once_optional_str(without_build, '-');
    if let Some(p) = pre {
        if !valid_dot_identifiers_str(p, true) {
            return false;
        }
    }
    let parts = split_str(core, '.');
    if parts.len() != 3 {
        return false;
    }
    assert(parts@[0]@ == split(core@, '.')[0]);
    assert(parts@[1]@ == split(core@, '.')[1]);
    assert(parts@[2]@ == split(core@, '.')[2]);
    valid_numeric_identifier_str(parts[0]) && valid_numeric_identifier_str(parts[1])
        && valid_numeric_identifier_str(parts[2])
}

fn is_npm_exec_variant_str(s: &str) -> (r: bool)
    ensures
        r == is_npm_exec_variant(s@),
{
    str_eq(s, "npm") || str_eq(s, "npx") || str_eq(s, "npm-exec") || starts_with(s, "npm ")
        || starts_with(s, "npx ") || starts_with(s, "npm-exec ")
}

fn has_inner_whitespace_str(s: &str) -> (r: bool)
    ensures
        r == has_inner_whitespace(s@),
{
    let n = s.unicode_len();
    let mut i: usize = 0;
    while i < n
        invariant
            n == s@.len(),
            i <= n,
            forall|j: int| 0 <= j < i ==> !is_ws(#[trigger] s@[j]),
        decreases n - i,
    {
        if char_is_ws(s.get_char(i)) {
            return true;
        }
        i = i + 1;
    }
    false
}

fn is_tarball_url_str(s: &str) -> (r: bool)
    ensures
        r == is_tarball_url(s@),
{
    (starts_with(s, "https://") || starts_with(s, "http://")) && ends_with(s, ".tgz")
}

fn is_git_spec_str(s: &str) -> (r: bool)
    ensures
        r == is_git_spec(s@),
{
    starts_with(s, "git+") || starts_with(s, "git://") || starts_with(s, "github:") || starts_with(
        s,
        "gitlab:",
    ) || starts_with(s, "bitbucket:") || ends_with(s, ".git")
}

fn is_windows_drive_path_str(s: &str) -> (r: bool)
    ensures
        r == is_windows_drive_path(s@),
{
    if s.unicode_len() < 2 {
        return false;
    }
    char_is_alpha(s.get_char(0)) && s.get_char(1) == ':'
}

fn is_local_path_str(s: &str) -> (r: bool)
    ensures
        r == is_local_path(s@),
{
    str_eq(s, ".") || str_eq(s, "..") || starts_with(s, "./") || starts_with(s, "../")
        || starts_with(s, ".\\") || starts_with(s, "..\\") || starts_with(s, "/") || contains_char(
        s,
        '\\',
    ) || starts_with(s, "file:") || is_windows_drive_path_str(s)
}

fn is_unversioned_name_str(s: &str) -> (r: bool)
    requires
        s@.len() > 0,
    ensures
        r == is_unversioned_name(s@),
{
    if s.get_char(0) == '@' {
        let n = s.unicode_len();
        let rest = s.substring_char(1, n);
        assert(rest@ == s@.drop_first());
        match split_once_str(rest, '/') {
            None => false,
            Some((scope, package)) => !contains_char(rest, '@') && scope.unicode_len() > 0
                && package.unicode_len() > 0,
        }
    } else {
        !contains_char(s, '@')
    }
}

} // verus!
