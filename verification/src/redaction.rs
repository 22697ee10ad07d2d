//! Redaction of credentials and local paths in text shown by reports.

use vstd::prelude::*;
use crate::integrity::{hex, hex_digest};
use crate::text::{
    char_is_ws, contains_char, find_char, has_prefix, index_of, is_ws, join, join_strings,
    lemma_index_of_bounds, lines, lines_str, occurs_at, split, split_once, split_once_str,
    split_str, starts_with, string_views, trim_start, views,
};

verus! {

// ---------------------------------------------------------------------------
// ASCII case-insensitive matching
// ---------------------------------------------------------------------------

/// Code of `c` after `char::to_ascii_lowercase`.
pub open spec fn lower_code(c: char) -> u32 {
    if 'A' <= c && c <= 'Z' {
        (c as u32 + 32) as u32
    } else {
        c as u32
    }
}

/// The ASCII-lowercased `s` holds the (lowercase) pattern `p` at `i`.
pub open spec fn ci_at(s: Seq<char>, p: Seq<char>, i: int) -> bool {
    &&& 0 <= i
    &&& i + p.len() <= s.len()
    &&& forall|j: int| #![trigger p[j]] 0 <= j < p.len() ==> lower_code(s[i + j]) == p[j] as u32
}

/// The ASCII-lowercased `s` contains `p`.
pub open spec fn ci_contains(s: Seq<char>, p: Seq<char>) -> bool {
    exists|i: int| ci_at(s, p, i)
}

/// The ASCII-lowercased `s` equals `p`.
pub open spec fn ci_equals(s: Seq<char>, p: Seq<char>) -> bool {
    s.len() == p.len() && ci_at(s, p, 0)
}

/// The ASCII-lowercased `s` ends with `p`.
pub open spec fn ci_ends_with(s: Seq<char>, p: Seq<char>) -> bool {
    p.len() <= s.len() && ci_at(s, p, s.len() - p.len())
}

fn lower_code_of(c: char) -> (r: u32)
    ensures
        r == lower_code(c),
{
    if 'A' <= c && c <= 'Z' {
        c as u32 + 32
    } else {
        c as u32
    }
}

/// Whether the lowercased `s` holds `p` at `i`.
fn ci_at_exec(s: &str, p: &str, i: usize) -> (r: bool)
    ensures
        r == ci_at(s@, p@, i as int),
{
    let n = s.unicode_len();
    let m = p.unicode_len();
    if i > n || m > n - i {
        return false;
    }
    let mut j: usize = 0;
    while j < m
        invariant
            n == s@.len(),
            m == p@.len(),
            i + m <= n,
            j <= m,
            forall|k: int| #![trigger p@[k]] 0 <= k < j ==> lower_code(s@[i + k]) == p@[k] as u32,
        decreases m - j,
    {
        if lower_code_of(s.get_char(i + j)) != p.get_char(j) as u32 {
            assert(!(lower_code(s@[i + j]) == p@[j as int] as u32));
            return false;
        }
        j = j + 1;
    }
    true
}

/// Whether the lowercased `s` contains `p`.
fn ci_contains_exec(s: &str, p: &str) -> (r: bool)
    ensures
        r == ci_contains(s@, p@),
{
    let n = s.unicode_len();
    let m = p.unicode_len();
    if m > n {
        assert forall|i: int| !ci_at(s@, p@, i) by {}
        return false;
    }
    let mut i: usize = 0;
    while i <= n - m
        invariant
            n == s@.len(),
            m == p@.len(),
            m <= n,
            i <= n - m + 1,
            forall|j: int| 0 <= j < i ==> !ci_at(s@, p@, j),
        decreases n - m + 1 - i,
    {
        if ci_at_exec(s, p, i) {
            return true;
        }
        i = i + 1;
    }
    assert forall|j: int| !ci_at(s@, p@, j) by {}
    false
}

// ---------------------------------------------------------------------------
// Secret key names
// ---------------------------------------------------------------------------

/// A key whose value is treated as a secret: its lowercase form mentions a
/// token, auth, secret or password, or names a key.
pub open spec fn is_secret_key(k: Seq<char>) -> bool {
    ||| ci_contains(k, "token"@)
    ||| ci_contains(k, "auth"@)
    ||| ci_contains(k, "secret"@)
    ||| ci_contains(k, "password"@)
    ||| ci_equals(k, "key"@)
    ||| ci_ends_with(k, "_key"@)
    ||| ci_ends_with(k, "-key"@)
}

/// Whether `key` names a secret.
pub fn secret_key_name(key: &str) -> (r: bool)
    ensures
        r == is_secret_key(key@),
{
    let n = key.unicode_len();
    ci_contains_exec(key, "token") || ci_contains_exec(key, "auth") || ci_contains_exec(
        key,
        "secret",
    ) || ci_contains_exec(key, "password") || (n == "key".unicode_len() && ci_at_exec(
        key,
        "key",
        0,
    )) || ("_key".unicode_len() <= n && ci_at_exec(key, "_key", n - "_key".unicode_len())) || (
    "-key".unicode_len() <= n && ci_at_exec(key, "-key", n - "-key".unicode_len()))
}

// ---------------------------------------------------------------------------
// Credential-looking lines
// ---------------------------------------------------------------------------

/// One line with an authorization header or a `secret=`/`secret:` setting
/// replaced by a redaction marker, its indentation kept.
pub open spec fn auth_line(line: Seq<char>) -> Seq<char> {
    let t = trim_start(line);
    let lead = line.subrange(0, line.len() - t.len());
    if ci_at(t, "authorization:"@, 0) {
        lead + "Authorization: <redacted>"@
    } else if secret_split(t, '=') {
        lead + split_key(t, '=') + "=<redacted>"@
    } else if secret_split(t, ':') {
        lead + split_key(t, ':') + ": <redacted>"@
    } else {
        line
    }
}

/// The text before the first `c` in `t` (all of `t` when there is none).
pub open spec fn split_key(t: Seq<char>, c: char) -> Seq<char> {
    match split_once(t, c) {
        Some((k, _)) => k,
        None => t,
    }
}

/// `t` holds `c` and the text before it is a secret key name.
pub open spec fn secret_split(t: Seq<char>, c: char) -> bool {
    split_once(t, c) is Some && is_secret_key(split_key(t, c))
}

/// Every line of `s` passed through `auth_line`, keeping a final newline.
pub open spec fn auth_text(s: Seq<char>) -> Seq<char> {
    let body = join(lines(s).map_values(|l: Seq<char>| auth_line(l)), "\n"@);
    if s.len() > 0 && s.last() == '\n' {
        body + "\n"@
    } else {
        body
    }
}

/// Number of leading whitespace characters of `s`.
fn leading_ws(s: &str) -> (r: usize)
    ensures
        r <= s@.len(),
        trim_start(s@) == s@.subrange(r as int, s@.len() as int),
{
    let n = s.unicode_len();
    let mut i: usize = 0;
    assert(s@.subrange(0, n as int) == s@);
    while i < n && char_is_ws(s.get_char(i))
        invariant
            n == s@.len(),
            i <= n,
            trim_start(s@) == trim_start(s@.subrange(i as int, n as int)),
        decreases n - i,
    {
        assert(s@.subrange(i as int, n as int).drop_first() == s@.subrange(i + 1, n as int));
        i = i + 1;
    }
    i
}

/// Redact one credential-looking line.
fn redact_auth_like_line(line: &str) -> (r: String)
    ensures
        r@ == auth_line(line@),
{
    let n = line.unicode_len();
    let k = leading_ws(line);
    let lead = line.substring_char(0, k);
    let t = line.substring_char(k, n);
    assert(lead@ == line@.subrange(0, line@.len() - t@.len()));
    if ci_at_exec(t, "authorization:", 0) {
        let mut out = lead.to_owned();
        out.append("Authorization: <redacted>");
        return out;
    }
    let eq = split_once_str(t, '=');
    if let Some((key, _)) = eq {
        if secret_key_name(key) {
            let mut out = lead.to_owned();
            out.append(key);
            out.append("=<redacted>");
            return out;
        }
    }
    let colon = split_once_str(t, ':');
    if let Some((key, _)) = colon {
        if secret_key_name(key) {
            let mut out = lead.to_owned();
            out.append(key);
            out.append(": <redacted>");
            return out;
        }
    }
    line.to_owned()
}

/// Redact credential-looking lines of a text.
fn redact_auth_like_value(value: &str) -> (r: String)
    ensures
        r@ == auth_text(value@),
{
    let ls = lines_str(value);
    let mut redacted: Vec<String> = Vec::new();
    let mut i: usize = 0;
    while i < ls.len()
        invariant
            i <= ls@.len(),
            views(ls@) == lines(value@),
            string_views(redacted@) == views(ls@).subrange(0, i as int).map_values(
                |l: Seq<char>| auth_line(l),
            ),
        decreases ls@.len() - i,
    {
        let line = redact_auth_like_line(ls[i]);
        proof {
            let ghost before = redacted@;
            assert(string_views(before.push(line)) == string_views(before).push(line@));
            assert(views(ls@).subrange(0, i + 1) == views(ls@).subrange(0, i as int).push(
                ls@[i as int]@,
            ));
        }
        redacted.push(line);
        proof {
            assert(string_views(redacted@) == views(ls@).subrange(0, i + 1).map_values(
                |l: Seq<char>| auth_line(l),
            ));
        }
        i = i + 1;
    }
    assert(views(ls@).subrange(0, ls@.len() as int) == views(ls@));
    let mut out = join_strings(&redacted, "\n");
    let n = value.unicode_len();
    if n > 0 && value.get_char(n - 1) == '\n' {
        out.append("\n");
    }
    out
}

// ---------------------------------------------------------------------------
// Embedded `name=value` secrets
// ---------------------------------------------------------------------------

/// Length of the first secret-assignment marker, in list order, that the
/// lowercased `s` holds at `p`.
pub open spec fn marker_at(s: Seq<char>, p: int) -> Option<nat> {
    if ci_at(s, ":_authtoken="@, p) {
        Some(12)
    } else if ci_at(s, "_authtoken="@, p) {
        Some(11)
    } else if ci_at(s, "npm-auth-token="@, p) {
        Some(15)
    } else if ci_at(s, "authtoken="@, p) {
        Some(10)
    } else if ci_at(s, "token="@, p) {
        Some(6)
    } else if ci_at(s, "password="@, p) {
        Some(9)
    } else if ci_at(s, "secret="@, p) {
        Some(7)
    } else if ci_at(s, "_auth="@, p) {
        Some(6)
    } else {
        None
    }
}

/// The earliest position at or after `from` where a marker starts, with the
/// marker's length.
pub open spec fn next_assignment(s: Seq<char>, from: int) -> Option<(int, nat)>
    decreases s.len() - from,
{
    if from < 0 || from >= s.len() {
        None
    } else {
        match marker_at(s, from) {
            Some(l) => Some((from, l)),
            None => next_assignment(s, from + 1),
        }
    }
}

/// A character that ends a secret value.
pub open spec fn ends_value(c: char) -> bool {
    c == '&' || c == ' ' || c == '\n' || c == '\t' || c == '"' || c == '\'' || c == ';'
}

/// First position at or after `i` holding a character that ends a secret
/// value, or the length of `s`.
pub open spec fn value_end(s: Seq<char>, i: int) -> int
    decreases s.len() - i,
{
    if i < 0 || i >= s.len() {
        s.len() as int
    } else if ends_value(s[i]) {
        i
    } else {
        value_end(s, i + 1)
    }
}

pub proof fn lemma_value_end(s: Seq<char>, i: int)
    requires
        0 <= i <= s.len(),
    ensures
        i <= value_end(s, i) <= s.len(),
    decreases s.len() - i,
{
    if i < s.len() && !ends_value(s[i]) {
        lemma_value_end(s, i + 1);
    }
}

pub proof fn lemma_next_assignment(s: Seq<char>, from: int)
    requires
        0 <= from,
    ensures
        next_assignment(s, from) matches Some((st, l)) ==> from <= st && 1 <= l && st + l
            <= s.len(),
    decreases s.len() - from,
{
    if from < s.len() && marker_at(s, from) is None {
        lemma_next_assignment(s, from + 1);
    }
    if from < s.len() && marker_at(s, from) is Some {
        assert(":_authtoken="@.len() == 12) by { reveal_strlit(":_authtoken="); }
        assert("_authtoken="@.len() == 11) by { reveal_strlit("_authtoken="); }
        assert("npm-auth-token="@.len() == 15) by { reveal_strlit("npm-auth-token="); }
        assert("authtoken="@.len() == 10) by { reveal_strlit("authtoken="); }
        assert("token="@.len() == 6) by { reveal_strlit("token="); }
        assert("password="@.len() == 9) by { reveal_strlit("password="); }
        assert("secret="@.len() == 7) by { reveal_strlit("secret="); }
        assert("_auth="@.len() == 6) by { reveal_strlit("_auth="); }
    }
}

/// `s` from `cursor` on, with the value after each secret-assignment marker
/// replaced by `<redacted>`.
pub open spec fn embedded_from(s: Seq<char>, cursor: int) -> Seq<char>
    decreases s.len() - cursor,
{
    if cursor < 0 || cursor > s.len() {
        Seq::empty()
    } else {
        match next_assignment(s, cursor) {
            None => s.subrange(cursor, s.len() as int),
            Some((st, l)) => {
                proof {
                    lemma_next_assignment(s, cursor);
                    lemma_value_end(s, st + l);
                }
                s.subrange(cursor, st + l) + "<redacted>"@ + embedded_from(s, value_end(s, st + l))
            },
        }
    }
}

/// `s` with every embedded secret assignment's value redacted.
pub open spec fn embedded_text(s: Seq<char>) -> Seq<char> {
    embedded_from(s, 0)
}

/// Length of the marker at `p`, if any.
fn marker_at_exec(s: &str, p: usize) -> (r: Option<usize>)
    ensures
        match (r, marker_at(s@, p as int)) {
            (Some(a), Some(b)) => a == b,
            (None, None) => true,
            _ => false,
        },
{
    if ci_at_exec(s, ":_authtoken=", p) {
        Some(12)
    } else if ci_at_exec(s, "_authtoken=", p) {
        Some(11)
    } else if ci_at_exec(s, "npm-auth-token=", p) {
        Some(15)
    } else if ci_at_exec(s, "authtoken=", p) {
        Some(10)
    } else if ci_at_exec(s, "token=", p) {
        Some(6)
    } else if ci_at_exec(s, "password=", p) {
        Some(9)
    } else if ci_at_exec(s, "secret=", p) {
        Some(7)
    } else if ci_at_exec(s, "_auth=", p) {
        Some(6)
    } else {
        None
    }
}

/// The next secret-assignment marker at or after `from`.
fn find_next_assignment(s: &str, from: usize) -> (r: Option<(usize, usize)>)
    requires
        from <= s@.len(),
    ensures
        match (r, next_assignment(s@, from as int)) {
            (Some((a, b)), Some((x, y))) => a == x && b == y,
            (None, None) => true,
            _ => false,
        },
{
    let n = s.unicode_len();
    let mut p: usize = from;
    while p < n
        invariant
            n == s@.len(),
            from <= p <= n,
            next_assignment(s@, from as int) == next_assignment(s@, p as int),
        decreases n - p,
    {
        match marker_at_exec(s, p) {
            Some(l) => {
                return Some((p, l));
            },
            None => {
                p = p + 1;
            },
        }
    }
    None
}

/// First position at or after `i` that ends a secret value.
fn secret_value_end(s: &str, i: usize) -> (r: usize)
    requires
        i <= s@.len(),
    ensures
        r == value_end(s@, i as int),
{
    let n = s.unicode_len();
    let mut j: usize = i;
    while j < n
        invariant
            n == s@.len(),
            i <= j <= n,
            value_end(s@, i as int) == value_end(s@, j as int),
        decreases n - j,
    {
        let c = s.get_char(j);
        if c == '&' || c == ' ' || c == '\n' || c == '\t' || c == '"' || c == '\'' || c == ';' {
            return j;
        }
        j = j + 1;
    }
    j
}

/// Redact the value after each embedded secret-assignment marker.
fn redact_embedded_secret_assignments(value: &str) -> (r: String)
    ensures
        r@ == embedded_text(value@),
{
    let n = value.unicode_len();
    let mut out = String::new();
    let mut cursor: usize = 0;
    loop
        invariant
            n == value@.len(),
            cursor <= n,
            out@ + embedded_from(value@, cursor as int) == embedded_from(value@, 0),
        decreases n - cursor,
    {
        proof {
            lemma_next_assignment(value@, cursor as int);
        }
        match find_next_assignment(value, cursor) {
            None => {
                out.append(value.substring_char(cursor, n));
                return out;
            },
            Some((start, len)) => {
                proof {
                    lemma_value_end(value@, start + len);
                }
                let ghost before = out@;
                out.append(value.substring_char(cursor, start + len));
                out.append("<redacted>");
                let next = secret_value_end(value, start + len);
                assert(before + embedded_from(value@, cursor as int) == out@ + embedded_from(
                    value@,
                    next as int,
                ));
                cursor = next;
            },
        }
    }
}

// ---------------------------------------------------------------------------
// URL credentials and secret query parameters
// ---------------------------------------------------------------------------

/// First position at or after `i` where `p` occurs in `s`.
pub open spec fn find_from(s: Seq<char>, p: Seq<char>, i: int) -> Option<int>
    decreases s.len() + 1 - i,
{
    if i < 0 || i + p.len() > s.len() {
        None
    } else if occurs_at(s, p, i) {
        Some(i)
    } else {
        find_from(s, p, i + 1)
    }
}

pub proof fn lemma_find_from(s: Seq<char>, p: Seq<char>, i: int)
    requires
        0 <= i,
    ensures
        find_from(s, p, i) matches Some(j) ==> i <= j && occurs_at(s, p, j),
    decreases s.len() + 1 - i,
{
    if i + p.len() <= s.len() && !occurs_at(s, p, i) {
        lemma_find_from(s, p, i + 1);
    }
}

/// A character that ends the authority part of a URL.
pub open spec fn ends_authority(c: char) -> bool {
    c == '/' || c == '?' || c == '#'
}

/// First position at or after `i` holding a character that ends the
/// authority, or the length of `s`.
pub open spec fn authority_end(s: Seq<char>, i: int) -> int
    decreases s.len() - i,
{
    if i < 0 || i >= s.len() {
        s.len() as int
    } else if ends_authority(s[i]) {
        i
    } else {
        authority_end(s, i + 1)
    }
}

pub proof fn lemma_authority_end(s: Seq<char>, i: int)
    requires
        0 <= i <= s.len(),
    ensures
        i <= authority_end(s, i) <= s.len(),
    decreases s.len() - i,
{
    if i < s.len() && !ends_authority(s[i]) {
        lemma_authority_end(s, i + 1);
    }
}

/// One `key=value` query pair with a secret value redacted; a bare secret
/// key becomes `<redacted>`.
pub open spec fn query_pair(pair: Seq<char>) -> Seq<char> {
    match split_once(pair, '=') {
        Some((k, _)) => if is_secret_key(k) {
            k + "=<redacted>"@
        } else {
            pair
        },
        None => if is_secret_key(pair) {
            "<redacted>"@
        } else {
            pair
        },
    }
}

/// `v` with the secret pairs of its query string redacted; the fragment is
/// kept.
pub open spec fn query_text(v: Seq<char>) -> Seq<char> {
    let q = index_of(v, '?');
    if q < 0 {
        v
    } else {
        let rest = v.subrange(q + 1, v.len() as int);
        let (query, fragment) = match split_once(rest, '#') {
            Some((a, b)) => (a, seq!['#'] + b),
            None => (rest, Seq::empty()),
        };
        v.subrange(0, q + 1) + join(split(query, '&').map_values(|x: Seq<char>| query_pair(x)), "&"@)
            + fragment
    }
}

/// `u` with any user information of its URL authority replaced by
/// `<redacted>` and its secret query pairs redacted.
pub open spec fn url_text(u: Seq<char>) -> Seq<char> {
    match find_from(u, "://"@, 0) {
        None => query_text(u),
        Some(se) => {
            let a = se + 3;
            let auth = u.subrange(a, authority_end(u, a));
            if index_of(auth, '@') >= 0 {
                query_text(
                    u.subrange(0, a) + "<redacted>@"@ + u.subrange(a + index_of(auth, '@') + 1, u.len() as int),
                )
            } else {
                query_text(u)
            }
        },
    }
}

/// First occurrence of `p` at or after `i`.
fn find_str_from(s: &str, p: &str, i: usize) -> (r: Option<usize>)
    requires
        i <= s@.len(),
    ensures
        match r {
            Some(j) => find_from(s@, p@, i as int) == Some(j as int),
            None => find_from(s@, p@, i as int) is None,
        },
{
    let n = s.unicode_len();
    let m = p.unicode_len();
    if m == 0 {
        assert(s@.subrange(i as int, i as int) == p@);
        return Some(i);
    }
    if m > n {
        return None;
    }
    let mut j: usize = i;
    while j <= n - m
        invariant
            n == s@.len(),
            m == p@.len(),
            1 <= m <= n,
            i <= j,
            find_from(s@, p@, i as int) == find_from(s@, p@, j as int),
        decreases n + 1 - j,
    {
        let rest = s.substring_char(j, n);
        assert(rest@.subrange(0, m as int) == s@.subrange(j as int, j + m));
        if starts_with(rest, p) {
            return Some(j);
        }
        j = j + 1;
    }
    None
}

/// End of the authority that starts at `i`.
fn authority_end_exec(s: &str, i: usize) -> (r: usize)
    requires
        i <= s@.len(),
    ensures
        r == authority_end(s@, i as int),
{
    let n = s.unicode_len();
    let mut j: usize = i;
    while j < n
        invariant
            n == s@.len(),
            i <= j <= n,
            authority_end(s@, i as int) == authority_end(s@, j as int),
        decreases n - j,
    {
        let c = s.get_char(j);
        if c == '/' || c == '?' || c == '#' {
            return j;
        }
        j = j + 1;
    }
    j
}

/// Redact one query pair.
fn redact_query_pair(pair: &str) -> (r: String)
    ensures
        r@ == query_pair(pair@),
{
    match split_once_str(pair, '=') {
        Some((key, _)) => {
            if secret_key_name(key) {
                let mut out = key.to_owned();
                out.append("=<redacted>");
                out
            } else {
                pair.to_owned()
            }
        },
        None => {
            if secret_key_name(pair) {
                "<redacted>".to_owned()
            } else {
                pair.to_owned()
            }
        },
    }
}

/// Redact secret query pairs.
fn redact_query_secrets(value: &str) -> (r: String)
    ensures
        r@ == query_text(value@),
{
    let n = value.unicode_len();
    let q = match find_char(value, '?') {
        Some(q) => q,
        None => {
            return value.to_owned();
        },
    };
    proof {
        lemma_index_of_bounds(value@, '?');
    }
    let rest = value.substring_char(q + 1, n);
    let (query, fragment) = match split_once_str(rest, '#') {
        Some((a, b)) => (a, Some(b)),
        None => (rest, None),
    };
    let pairs = split_str(query, '&');
    let mut redacted: Vec<String> = Vec::new();
    let mut i: usize = 0;
    while i < pairs.len()
        invariant
            i <= pairs@.len(),
            views(pairs@) == split(query@, '&'),
            string_views(redacted@) == views(pairs@).subrange(0, i as int).map_values(
                |x: Seq<char>| query_pair(x),
            ),
        decreases pairs@.len() - i,
    {
        let one = redact_query_pair(pairs[i]);
        proof {
            let ghost before = redacted@;
            assert(string_views(before.push(one)) == string_views(before).push(one@));
            assert(views(pairs@).subrange(0, i + 1) == views(pairs@).subrange(0, i as int).push(
                pairs@[i as int]@,
            ));
        }
        redacted.push(one);
        proof {
            assert(string_views(redacted@) == views(pairs@).subrange(0, i + 1).map_values(
                |x: Seq<char>| query_pair(x),
            ));
        }
        i = i + 1;
    }
    assert(views(pairs@).subrange(0, pairs@.len() as int) == views(pairs@));
    let mut out = value.substring_char(0, q + 1).to_owned();
    let joined = join_strings(&redacted, "&");
    out.append(joined.as_str());
    match fragment {
        Some(f) => {
            out.append("#");
            out.append(f);
            proof {
                reveal_strlit("#");
                assert(out@ == value@.subrange(0, q + 1) + joined@ + (seq!['#'] + f@));
            }
        },
        None => {
            assert(out@ == value@.subrange(0, q + 1) + joined@ + Seq::<char>::empty());
        },
    }
    out
}

/// Redact URL user information and secret query pairs.
fn redact_url_credentials(url: &str) -> (r: String)
    ensures
        r@ == url_text(url@),
{
    let n = url.unicode_len();
    let se = match find_str_from(url, "://", 0) {
        Some(se) => se,
        None => {
            return redact_query_secrets(url);
        },
    };
    proof {
        lemma_find_from(url@, "://"@, 0);
        reveal_strlit("://");
    }
    let a = se + 3;
    let he = authority_end_exec(url, a);
    proof {
        lemma_authority_end(url@, a as int);
    }
    let auth = url.substring_char(a, he);
    match find_char(auth, '@') {
        Some(at) => {
            proof {
                lemma_index_of_bounds(auth@, '@');
            }
            let mut w = url.substring_char(0, a).to_owned();
            w.append("<redacted>@");
            w.append(url.substring_char(a + at + 1, n));
            redact_query_secrets(w.as_str())
        },
        None => redact_query_secrets(url),
    }
}

// ---------------------------------------------------------------------------
// Local paths
// ---------------------------------------------------------------------------

/// `s` with every non-overlapping occurrence of `p`, left to right, replaced
/// by `r` (as `str::replace`; an empty `p` matches between all characters).
pub open spec fn replace_all(s: Seq<char>, p: Seq<char>, r: Seq<char>) -> Seq<char>
    decreases s.len(),
{
    if p.len() == 0 {
        if s.len() == 0 {
            r
        } else {
            r + seq![s[0]] + replace_all(s.drop_first(), p, r)
        }
    } else if s.len() == 0 {
        s
    } else if has_prefix(s, p) {
        r + replace_all(s.subrange(p.len() as int, s.len() as int), p, r)
    } else {
        seq![s[0]] + replace_all(s.drop_first(), p, r)
    }
}

/// `s` with the home directory, when known, replaced by `<home>`.
pub open spec fn home_text(s: Seq<char>, home: Option<Seq<char>>) -> Seq<char> {
    match home {
        Some(h) => replace_all(s, h, "<home>"@),
        None => s,
    }
}

/// A character that ends a user name in a home path.
pub open spec fn ends_user(c: char) -> bool {
    c == '/' || c == ' ' || c == '\n' || c == '\t' || c == '"' || c == '\''
}

/// First position at or after `i` holding a character that ends a user
/// name, or the length of `s`.
pub open spec fn user_end(s: Seq<char>, i: int) -> int
    decreases s.len() - i,
{
    if i < 0 || i >= s.len() {
        s.len() as int
    } else if ends_user(s[i]) {
        i
    } else {
        user_end(s, i + 1)
    }
}

pub proof fn lemma_user_end(s: Seq<char>, i: int)
    requires
        0 <= i <= s.len(),
    ensures
        i <= user_end(s, i) <= s.len(),
    decreases s.len() - i,
{
    if i < s.len() && !ends_user(s[i]) {
        lemma_user_end(s, i + 1);
    }
}

/// `s` with each `prefix` and the user name after it replaced by `<home>`
/// (the prefixes used are non-empty).
pub open spec fn prefix_paths(s: Seq<char>, prefix: Seq<char>) -> Seq<char>
    decreases s.len(),
{
    if prefix.len() == 0 {
        s
    } else {
        match find_from(s, prefix, 0) {
            None => s,
            Some(i) => {
                proof {
                    lemma_find_from(s, prefix, 0);
                }
                let suffix = s.subrange(i + prefix.len(), s.len() as int);
                proof {
                    lemma_user_end(suffix, 0);
                }
                s.subrange(0, i) + "<home>"@ + prefix_paths(
                    suffix.subrange(user_end(suffix, 0), suffix.len() as int),
                    prefix,
                )
            },
        }
    }
}

/// `s` with macOS and Linux home paths replaced by `<home>`.
pub open spec fn known_paths(s: Seq<char>) -> Seq<char> {
    prefix_paths(prefix_paths(s, "/Users/"@), "/home/"@)
}

/// A report value with credentials and local paths redacted.
pub open spec fn redacted(v: Seq<char>, home: Option<Seq<char>>) -> Seq<char> {
    known_paths(home_text(url_text(embedded_text(auth_text(v))), home))
}

/// The view of an optional string slice.
pub open spec fn opt_view(o: Option<&str>) -> Option<Seq<char>> {
    match o {
        Some(s) => Some(s@),
        None => None,
    }
}

/// Replace each occurrence of `pattern` in `value` by `with`.
fn replace_str(value: &str, pattern: &str, with: &str) -> (r: String)
    ensures
        r@ == replace_all(value@, pattern@, with@),
{
    let n = value.unicode_len();
    let m = pattern.unicode_len();
    let mut out = String::new();
    let mut i: usize = 0;
    assert(value@.subrange(0, n as int) == value@);
    loop
        invariant
            n == value@.len(),
            m == pattern@.len(),
            i <= n,
            out@ + replace_all(value@.subrange(i as int, n as int), pattern@, with@)
                == replace_all(value@, pattern@, with@),
        decreases n - i,
    {
        let rest = value.substring_char(i, n);
        let ghost before = out@;
        if m == 0 {
            out.append(with);
            if i == n {
                return out;
            }
            out.append(value.substring_char(i, i + 1));
            assert(rest@.drop_first() == value@.subrange(i + 1, n as int));
            assert(value@.subrange(i as int, i + 1) == seq![rest@[0]]);
            assert(before + replace_all(rest@, pattern@, with@) == out@ + replace_all(
                value@.subrange(i + 1, n as int),
                pattern@,
                with@,
            ));
            i = i + 1;
        } else if i == n {
            return out;
        } else if starts_with(rest, pattern) {
            out.append(with);
            assert(rest@.subrange(m as int, rest@.len() as int) == value@.subrange(i + m, n as int));
            i = i + m;
        } else {
            out.append(value.substring_char(i, i + 1));
            assert(rest@.drop_first() == value@.subrange(i + 1, n as int));
            assert(value@.subrange(i as int, i + 1) == seq![rest@[0]]);
            assert(before + replace_all(rest@, pattern@, with@) == out@ + replace_all(
                value@.subrange(i + 1, n as int),
                pattern@,
                with@,
            ));
            i = i + 1;
        }
    }
}

/// End of the user name that starts at `i`.
fn user_end_exec(s: &str, i: usize) -> (r: usize)
    requires
        i <= s@.len(),
    ensures
        r == user_end(s@, i as int),
{
    let n = s.unicode_len();
    let mut j: usize = i;
    while j < n
        invariant
            n == s@.len(),
            i <= j <= n,
            user_end(s@, i as int) == user_end(s@, j as int),
        decreases n - j,
    {
        let c = s.get_char(j);
        if c == '/' || c == ' ' || c == '\n' || c == '\t' || c == '"' || c == '\'' {
            return j;
        }
        j = j + 1;
    }
    j
}

/// Replace each `prefix` and the user name after it by `<home>`.
fn redact_path_prefix(value: &str, prefix: &str) -> (r: String)
    requires
        prefix@.len() > 0,
    ensures
        r@ == prefix_paths(value@, prefix@),
{
    let m = prefix.unicode_len();
    let mut out = String::new();
    let mut rest = value;
    loop
        invariant
            m == prefix@.len(),
            m > 0,
            out@ + prefix_paths(rest@, prefix@) == prefix_paths(value@, prefix@),
        decreases rest@.len(),
    {
        let n = rest.unicode_len();
        match find_str_from(rest, prefix, 0) {
            None => {
                out.append(rest);
                return out;
            },
            Some(i) => {
                proof {
                    lemma_find_from(rest@, prefix@, 0);
                }
                let ghost before = out@;
                out.append(rest.substring_char(0, i));
                out.append("<home>");
                let suffix = rest.substring_char(i + m, n);
                let ue = user_end_exec(suffix, 0);
                proof {
                    lemma_user_end(suffix@, 0);
                }
                let next = suffix.substring_char(ue, suffix.unicode_len());
                assert(before + prefix_paths(rest@, prefix@) == out@ + prefix_paths(next@, prefix@));
                rest = next;
            },
        }
    }
}

/// Redact a string that may be shown in a human or JSON report: credential
/// lines, embedded secret assignments, URL user information and secret query
/// pairs, the home directory `home` (when known) and macOS/Linux home paths.
pub fn redact_report_value(value: &str, home: Option<&str>) -> (r: String)
    ensures
        r@ == redacted(value@, opt_view(home)),
{
    let with_auth = redact_auth_like_value(value);
    let with_embedded_auth = redact_embedded_secret_assignments(with_auth.as_str());
    let with_url = redact_url_credentials(with_embedded_auth.as_str());
    let with_home = match home {
        Some(h) => replace_str(with_url.as_str(), h, "<home>"),
        None => with_url,
    };
    proof {
        reveal_strlit("/Users/");
        reveal_strlit("/home/");
    }
    let users = redact_path_prefix(with_home.as_str(), "/Users/");
    redact_path_prefix(users.as_str(), "/home/")
}

// ---------------------------------------------------------------------------
// Argument lists and digest keys
// ---------------------------------------------------------------------------

/// `s` without its leading `-` characters.
pub open spec fn strip_dashes(s: Seq<char>) -> Seq<char>
    decreases s.len(),
{
    if s.len() > 0 && s[0] == '-' {
        strip_dashes(s.drop_first())
    } else {
        s
    }
}

/// An argument such as `--token` or `--password=x` whose name is a secret.
pub open spec fn secret_arg(v: Seq<char>) -> bool {
    is_secret_key(split_key(strip_dashes(v), '='))
}

/// Redacted arguments: each is redacted as a report value, and the argument
/// after a secret-named flag without `=` becomes `<redacted>` (`skip` says the
/// first one follows such a flag).
pub open spec fn redacted_args(vals: Seq<Seq<char>>, home: Option<Seq<char>>, skip: bool) -> Seq<
    Seq<char>,
>
    decreases vals.len(),
{
    if vals.len() == 0 {
        Seq::empty()
    } else if skip {
        seq!["<redacted>"@] + redacted_args(vals.drop_first(), home, false)
    } else {
        seq![redacted(vals[0], home)] + redacted_args(
            vals.drop_first(),
            home,
            secret_arg(vals[0]) && !vals[0].contains('='),
        )
    }
}

pub proof fn lemma_redacted_args_len(vals: Seq<Seq<char>>, home: Option<Seq<char>>, skip: bool)
    ensures
        redacted_args(vals, home, skip).len() == vals.len(),
    decreases vals.len(),
{
    if vals.len() > 0 {
        lemma_redacted_args_len(vals.drop_first(), home, false);
        lemma_redacted_args_len(
            vals.drop_first(),
            home,
            secret_arg(vals[0]) && !vals[0].contains('='),
        );
    }
}

/// Whether an argument names a secret.
fn secret_arg_key(value: &str) -> (r: bool)
    ensures
        r == secret_arg(value@),
{
    let n = value.unicode_len();
    let mut i: usize = 0;
    assert(value@.subrange(0, n as int) == value@);
    while i < n && value.get_char(i) == '-'
        invariant
            n == value@.len(),
            i <= n,
            strip_dashes(value@) == strip_dashes(value@.subrange(i as int, n as int)),
        decreases n - i,
    {
        assert(value@.subrange(i as int, n as int).drop_first() == value@.subrange(i + 1, n as int));
        i = i + 1;
    }
    let stripped = value.substring_char(i, n);
    match split_once_str(stripped, '=') {
        Some((key, _)) => secret_key_name(key),
        None => secret_key_name(stripped),
    }
}

/// Redact argv-like report values while keeping their number and order.
pub fn redact_report_values(values: &[String], home: Option<&str>) -> (r: Vec<String>)
    ensures
        string_views(r@) == redacted_args(string_views(values@), opt_view(home), false),
        r@.len() == values@.len(),
{
    let ghost all = string_views(values@);
    let mut out: Vec<String> = Vec::new();
    let mut redact_next = false;
    let mut i: usize = 0;
    assert(all.subrange(0, all.len() as int) == all);
    assert(string_views(out@) == Seq::<Seq<char>>::empty());
    assert(Seq::<Seq<char>>::empty() + redacted_args(all, opt_view(home), false) == redacted_args(
        all,
        opt_view(home),
        false,
    ));
    while i < values.len()
        invariant
            i <= values@.len(),
            all == string_views(values@),
            string_views(out@) + redacted_args(
                all.subrange(i as int, all.len() as int),
                opt_view(home),
                redact_next,
            ) == redacted_args(all, opt_view(home), false),
        decreases values@.len() - i,
    {
        let ghost rest = all.subrange(i as int, all.len() as int);
        assert(rest.drop_first() == all.subrange(i + 1, all.len() as int));
        assert(rest[0] == values@[i as int]@);
        let ghost before = out@;
        if redact_next {
            redact_next = false;
            out.push("<redacted>".to_owned());
        } else {
            let v = values[i].as_str();
            let one = redact_report_value(v, home);
            redact_next = secret_arg_key(v) && !contains_char(v, '=');
            out.push(one);
        }
        assert(string_views(out@) == string_views(before).push(out@.last()@));
        i = i + 1;
    }
    assert(all.subrange(0, all.len() as int) == all);
    assert(all.subrange(i as int, all.len() as int) == Seq::<Seq<char>>::empty());
    proof {
        lemma_redacted_args_len(all, opt_view(home), false);
    }
    out
}

/// What `sha2::Sha256` computes over the UTF-8 bytes of a text.
pub uninterp spec fn sha256_of_text(text: Seq<char>) -> Seq<u8>;

/// SHA-256 digest of a text's UTF-8 bytes with `sha2::Sha256::digest`.
/// Trusted: the result is `sha256_of_text` of the text, and (as the `Sha256`
/// output size fixes) 32 bytes long.
#[verifier::external_body]
fn sha256_text(text: &str) -> (r: Vec<u8>)
    ensures
        r@ == sha256_of_text(text@),
        r@.len() == 32,
{
    <sha2::Sha256 as sha2::Digest>::digest(text.as_bytes()).to_vec()
}

/// `sha256:` and the lowercase hex SHA-256 of `label:value`.
pub open spec fn digest_key(label: Seq<char>, value: Seq<char>) -> Seq<char> {
    "sha256:"@ + hex(sha256_of_text(label + ":"@ + value))
}

/// Stable digest key of an already redacted report value.
pub fn digest_report_key(label: &str, value: &str) -> (r: String)
    ensures
        r@ == digest_key(label@, value@),
{
    let mut keyed = label.to_owned();
    keyed.append(":");
    keyed.append(value);
    let digest = sha256_text(keyed.as_str());
    let mut out = "sha256:".to_owned();
    out.append(hex_digest(&digest).as_str());
    out
}

} // verus!
