//! Deterministic registry precedence and inspection/execution agreement.

use vstd::prelude::*;
use crate::closure::{ClosureDecision, M2Reason};
use crate::contracts::{PackageSpec, RegistrySource, RegistrySourceView};
use crate::text::{
    contains_char, ends_with, has_prefix, has_suffix, lemma_index_of_absent, lemma_split_after,
    lemma_trim_end_shape,
    lemma_trim_idempotent, lemma_trim_start_shape, lines, lines_str, split_once, split_once_str,
    starts_with, str_eq, trim, trim_end, trim_start, trim_str, views,
};

verus! {

/// Public npm registry base URL.
pub const PUBLIC_NPM_REGISTRY_URL: &'static str = "https://registry.npmjs.org/";

/// Local npm registry configuration supplied by a controlled fixture.
#[derive(Clone, Debug, Default, PartialEq, Eq)]
pub struct NpmRegistryConfig {
    /// Environment registry override (`NPM_CONFIG_REGISTRY`).
    pub env_registry: Option<String>,
    /// Local `.npmrc` contents.
    pub local_npmrc: Option<String>,
}

/// Registry agreement failure between inspection and execution preparation.
#[derive(Clone, Debug, PartialEq, Eq)]
pub struct RegistryPrecedenceMismatch {
    /// Conservative decision for this mismatch.
    pub decision: ClosureDecision,
    /// Stable reason.
    pub reason: M2Reason,
    /// Registry source used during inspection.
    pub inspected: RegistrySource,
    /// Registry source that would be used during execution preparation.
    pub execution: RegistrySource,
}

/// Trimmed URL with exactly the trailing `/` it needs.
pub open spec fn normalized_url(url: Seq<char>) -> Seq<char> {
    let t = trim(url);
    if has_suffix(t, "/"@) {
        t
    } else {
        t.push('/')
    }
}

/// Normalize registry URLs so equality checks are stable.
pub fn normalize_registry_url(registry_url: &str) -> (r: String)
    ensures
        r@ == normalized_url(registry_url@),
{
    let t = trim_str(registry_url);
    let mut out = t.to_owned();
    proof {
        reveal_strlit("/");
    }
    if !ends_with(t, "/") {
        out.append("/");
    }
    out
}

/// Normalizing a normalized URL changes nothing.
pub proof fn law_normalize_idempotent(url: Seq<char>)
    ensures
        normalized_url(normalized_url(url)) == normalized_url(url),
{
    let t = trim(url);
    lemma_trim_idempotent(url);
    lemma_trim_start_shape(url);
    lemma_trim_end_shape(trim_start(url));
    let n = normalized_url(url);
    assert("/"@ == seq!['/']) by {
        reveal_strlit("/");
    }
    if !has_suffix(t, "/"@) {
        assert(n.last() == '/');
        assert(!crate::text::is_ws('/'));
        if t.len() > 0 {
            assert(n[0] == t[0]);
            assert(t[0] == trim_start(url)[0]);
        }
        crate::text::lemma_trim_fixed(n);
        assert(n.subrange(n.len() - 1, n.len() as int) == seq!['/']);
    }
}

/// One `.npmrc` line as a (key, value) entry, if it is one.
pub open spec fn npmrc_entry(line: Seq<char>) -> Option<(Seq<char>, Seq<char>)> {
    let t = trim(line);
    if t.len() == 0 || has_prefix(t, "#"@) || has_prefix(t, ";"@) {
        None
    } else {
        match split_once(t, '=') {
            None => None,
            Some((k, v)) => if trim(k).len() == 0 || trim(v).len() == 0 {
                None
            } else {
                Some((trim(k), trim(v)))
            },
        }
    }
}

/// Value of the first `.npmrc` entry named `key`.
pub open spec fn npmrc_lookup(ls: Seq<Seq<char>>, key: Seq<char>) -> Option<Seq<char>>
    decreases ls.len(),
{
    if ls.len() == 0 {
        None
    } else {
        match npmrc_entry(ls[0]) {
            Some((k, v)) => if k == key {
                Some(v)
            } else {
                npmrc_lookup(ls.drop_first(), key)
            },
            None => npmrc_lookup(ls.drop_first(), key),
        }
    }
}

/// Registry selected for a spec: a non-blank environment override, then the
/// spec's scoped `.npmrc` registry, then the unscoped `.npmrc` registry,
/// then the public registry.
pub open spec fn registry_source_model(
    scope: Option<Seq<char>>,
    env_registry: Option<Seq<char>>,
    local_npmrc: Option<Seq<char>>,
) -> RegistrySourceView {
    let npmrc = match local_npmrc {
        Some(n) => n,
        None => Seq::empty(),
    };
    let ls = lines(npmrc);
    if env_registry is Some && trim(env_registry->0).len() > 0 {
        RegistrySourceView { url: normalized_url(env_registry->0), scope }
    } else if scope is Some && npmrc_lookup(ls, "@"@ + scope->0 + ":registry"@) is Some {
        RegistrySourceView {
            url: normalized_url(npmrc_lookup(ls, "@"@ + scope->0 + ":registry"@)->0),
            scope,
        }
    } else if npmrc_lookup(ls, "registry"@) is Some {
        RegistrySourceView { url: normalized_url(npmrc_lookup(ls, "registry"@)->0), scope: None }
    } else {
        RegistrySourceView { url: PUBLIC_NPM_REGISTRY_URL@, scope: None }
    }
}

/// A non-blank environment registry override selects the registry for every
/// spec, scoped or not, whatever `.npmrc` says; the spec's scope is kept.
pub proof fn law_env_registry_wins(scope: Option<Seq<char>>, env: Seq<char>, local_npmrc: Option<Seq<char>>)
    requires
        trim(env).len() > 0,
    ensures
        registry_source_model(scope, Some(env), local_npmrc) == (RegistrySourceView {
            url: normalized_url(env),
            scope,
        }),
{
}

/// With no usable override and no `.npmrc`, every spec, scoped or not, is
/// resolved against the public npm registry.
pub proof fn law_public_registry_by_default(scope: Option<Seq<char>>, env: Option<Seq<char>>)
    requires
        env is None || trim(env->0).len() == 0,
    ensures
        registry_source_model(scope, env, None) == (RegistrySourceView {
            url: PUBLIC_NPM_REGISTRY_URL@,
            scope: None,
        }),
{
    assert(lines(Seq::<char>::empty()) == Seq::<Seq<char>>::empty());
}

/// A text already trimmed: no whitespace at either end.
pub open spec fn is_trimmed(t: Seq<char>) -> bool {
    t.len() > 0 && !crate::text::is_ws(t[0]) && !crate::text::is_ws(t.last())
}

/// A one-line `.npmrc` `key=value`, with `key` free of `=` and neither
/// holding a line break, names `value` under `key` and nothing else.
proof fn lemma_one_line_npmrc(key: Seq<char>, value: Seq<char>)
    requires
        is_trimmed(key),
        is_trimmed(value),
        !key.contains('='),
        !key.contains('\n'),
        !value.contains('\n'),
        key[0] != '#',
        key[0] != ';',
    ensures
        forall|k: Seq<char>|
            #[trigger] npmrc_lookup(lines(key + seq!['='] + value), k) == if k == key {
                Some(value)
            } else {
                None
            },
{
    let line = key + seq!['='] + value;
    assert(!line.contains('\n')) by {
        if line.contains('\n') {
            let j = choose|j: int| 0 <= j < line.len() && line[j] == '\n';
            if j < key.len() {
                assert(line[j] == key[j]);
            } else if j == key.len() {
                assert(line[j] == '=');
            } else {
                assert(line[j] == value[j - key.len() - 1]);
            }
        }
    }
    lemma_index_of_absent(line, '\n');
    assert(lines(line) == seq![line]);
    assert(line[0] == key[0]);
    assert(line.last() == value.last());
    crate::text::lemma_trim_fixed(line);
    crate::text::lemma_trim_fixed(key);
    crate::text::lemma_trim_fixed(value);
    lemma_split_after(key, '=', value);
    reveal_strlit("#");
    reveal_strlit(";");
    assert(!has_prefix(line, "#"@)) by {
        if has_prefix(line, "#"@) {
            assert(line.subrange(0, 1)[0] == line[0]);
        }
    }
    assert(!has_prefix(line, ";"@)) by {
        if has_prefix(line, ";"@) {
            assert(line.subrange(0, 1)[0] == line[0]);
        }
    }
    assert(npmrc_entry(line) == Some((key, value)));
    assert forall|k: Seq<char>|
        #[trigger] npmrc_lookup(lines(line), k) == if k == key {
            Some(value)
        } else {
            None
        } by {
        let ls = lines(line);
        assert(ls.len() == 1 && ls[0] == line);
        assert(ls.drop_first() =~= Seq::<Seq<char>>::empty());
        assert(npmrc_lookup(Seq::<Seq<char>>::empty(), k) is None);
        assert(npmrc_lookup(ls.drop_first(), k) is None);
    }
}

/// Without a usable override, a `.npmrc` naming a registry for the spec's
/// scope selects it, normalized, for that scope; a spec without a scope
/// does not take it and falls back to the public registry.
pub proof fn law_scoped_npmrc_registry(scope: Seq<char>, url: Seq<char>, env: Option<Seq<char>>)
    requires
        env is None || trim(env->0).len() == 0,
        scope.len() > 0,
        !scope.contains('='),
        !scope.contains('\n'),
        is_trimmed(url),
        !url.contains('\n'),
    ensures
        registry_source_model(Some(scope), env, Some("@"@ + scope + ":registry="@ + url)) == (
        RegistrySourceView { url: normalized_url(url), scope: Some(scope) }),
        registry_source_model(None, env, Some("@"@ + scope + ":registry="@ + url)) == (RegistrySourceView {
            url: PUBLIC_NPM_REGISTRY_URL@,
            scope: None,
        }),
{
    reveal_strlit("@");
    reveal_strlit(":registry");
    reveal_strlit(":registry=");
    reveal_strlit("registry");
    let key = "@"@ + scope + ":registry"@;
    assert(key.last() == 'y');
    assert(key[0] == '@');
    assert(!key.contains('=') && !key.contains('\n')) by {
        if key.contains('=') || key.contains('\n') {
            let j = choose|j: int| 0 <= j < key.len() && (key[j] == '=' || key[j] == '\n');
            if j > 0 && j <= scope.len() {
                assert(key[j] == scope[j - 1]);
            }
        }
    }
    assert("@"@ + scope + ":registry="@ + url =~= key + seq!['='] + url);
    lemma_one_line_npmrc(key, url);
    assert(key != "registry"@) by {
        assert(key[0] != "registry"@[0]);
    }
}

/// Without a usable override, a `.npmrc` naming only the unscoped registry
/// selects it, normalized, for every spec, scoped or not.
pub proof fn law_unscoped_npmrc_registry(scope: Option<Seq<char>>, url: Seq<char>, env: Option<Seq<char>>)
    requires
        env is None || trim(env->0).len() == 0,
        is_trimmed(url),
        !url.contains('\n'),
    ensures
        registry_source_model(scope, env, Some("registry="@ + url)) == (RegistrySourceView {
            url: normalized_url(url),
            scope: None,
        }),
{
    reveal_strlit("registry");
    reveal_strlit("registry=");
    reveal_strlit("@");
    reveal_strlit(":registry");
    let key = "registry"@;
    assert(!key.contains('=') && !key.contains('\n')) by {
        if key.contains('=') || key.contains('\n') {
            let j = choose|j: int| 0 <= j < key.len() && (key[j] == '=' || key[j] == '\n');
        }
    }
    assert("registry="@ + url =~= key + seq!['='] + url);
    lemma_one_line_npmrc(key, url);
    if scope is Some {
        assert("@"@ + scope->0 + ":registry"@ != key) by {
            assert(("@"@ + scope->0 + ":registry"@)[0] == '@');
        }
    }
}

fn parse_npmrc_line(line: &str) -> (r: Option<(&str, &str)>)
    ensures
        match (r, npmrc_entry(line@)) {
            (Some((a, b)), Some((x, y))) => a@ == x && b@ == y,
            (None, None) => true,
            _ => false,
        },
{
    let t = trim_str(line);
    if t.unicode_len() == 0 || starts_with(t, "#") || starts_with(t, ";") {
        return None;
    }
    match split_once_str(t, '=') {
        None => None,
        Some((k, v)) => {
            let key = trim_str(k);
            let value = trim_str(v);
            if key.unicode_len() == 0 || value.unicode_len() == 0 {
                None
            } else {
                Some((key, value))
            }
        },
    }
}

fn npmrc_value(npmrc: &str, key: &str) -> (r: Option<String>)
    ensures
        r.deep_view() == npmrc_lookup(lines(npmrc@), key@),
{
    let ls = lines_str(npmrc);
    let ghost lv = lines(npmrc@);
    let mut i: usize = 0;
    assert(lv.subrange(0, lv.len() as int) == lv);
    while i < ls.len()
        invariant
            views(ls@) == lv,
            lv == lines(npmrc@),
            i <= ls@.len(),
            npmrc_lookup(lv, key@) == npmrc_lookup(lv.subrange(i as int, lv.len() as int), key@),
        decreases ls@.len() - i,
    {
        let ghost rest = lv.subrange(i as int, lv.len() as int);
        assert(rest[0] == ls@[i as int]@);
        assert(rest.drop_first() == lv.subrange(i + 1, lv.len() as int));
        if let Some((name, value)) = parse_npmrc_line(ls[i]) {
            if str_eq(name, key) {
                let v = value.to_owned();
                assert(npmrc_entry(rest[0]) == Some((name@, value@)));
                assert(Some(v).deep_view() == Some(v@));
                assert(rest.len() > 0);
                assert(npmrc_lookup(rest, key@) == Some(value@));
                return Some(v);
            }
        }
        i = i + 1;
    }
    None
}

/// Resolve the deterministic registry source for a package spec.
pub fn resolve_registry_source(package_spec: &PackageSpec, config: &NpmRegistryConfig) -> (r:
    RegistrySource)
    ensures
        r@ == registry_source_model(
            package_spec.scope.deep_view(),
            config.env_registry.deep_view(),
            config.local_npmrc.deep_view(),
        ),
{
    if let Some(url) = &config.env_registry {
        if trim_str(url.as_str()).unicode_len() > 0 {
            let scope = package_spec.scope.clone();
            return RegistrySource { url: normalize_registry_url(url.as_str()), scope };
        }
    }
    let npmrc: &str = match &config.local_npmrc {
        Some(n) => n.as_str(),
        None => "",
    };
    proof {
        reveal_strlit("");
    }
    if let Some(scope) = &package_spec.scope {
        let mut key = "@".to_owned();
        key.append(scope.as_str());
        key.append(":registry");
        if let Some(url) = npmrc_value(npmrc, key.as_str()) {
            return RegistrySource {
                url: normalize_registry_url(url.as_str()),
                scope: Some(scope.clone()),
            };
        }
    }
    if let Some(url) = npmrc_value(npmrc, "registry") {
        return RegistrySource { url: normalize_registry_url(url.as_str()), scope: None };
    }
    RegistrySource { url: PUBLIC_NPM_REGISTRY_URL.to_owned(), scope: None }
}

/// Require inspection and execution preparation to choose the same registry.
pub fn require_registry_agreement(inspected: &RegistrySource, execution: &RegistrySource) -> (r:
    Result<(), RegistryPrecedenceMismatch>)
    ensures
        r is Ok <==> inspected@ == execution@,
        r matches Err(e) ==> e.decision == ClosureDecision::ExecutionRefused && e.reason
            == M2Reason::RegistryPrecedenceMismatch && e.inspected == *inspected && e.execution
            == *execution,
{
    let same_url = str_eq(inspected.url.as_str(), execution.url.as_str());
    let same_scope = match (&inspected.scope, &execution.scope) {
        (Some(a), Some(b)) => str_eq(a.as_str(), b.as_str()),
        (None, None) => true,
        _ => false,
    };
    if same_url && same_scope {
        return Ok(());
    }
    Err(
        RegistryPrecedenceMismatch {
            decision: ClosureDecision::ExecutionRefused,
            reason: M2Reason::RegistryPrecedenceMismatch,
            inspected: crate::contracts::clone_registry_source(inspected),
            execution: crate::contracts::clone_registry_source(execution),
        },
    )
}

} // verus!
