//! Authority-context classification and redaction for inspect reports.

use vstd::prelude::*;
use crate::contracts::{
    clone_opt_string, PackageSpecParse, ParseView, RegistrySource, RegistrySourceView,
    SourceContext,
};
use crate::redaction::{digest_key, digest_report_key, opt_view, redact_report_value, redacted};
use crate::registry_precedence::PUBLIC_NPM_REGISTRY_URL;
use crate::text::{join, join_strings, split, split_str, str_eq, string_views, views};

verus! {

/// Redacted display value plus its category.
#[derive(Clone, Debug, PartialEq, Eq)]
pub struct AuthorityDisplayValue {
    /// Category suitable for human and JSON output.
    pub category: String,
    /// Redacted display string.
    pub display: String,
}

/// Registry authority context.
#[derive(Clone, Debug, PartialEq, Eq)]
pub struct AuthorityRegistryContext {
    /// Registry source category.
    pub category: AuthorityRegistryCategory,
    /// Redacted registry URL.
    pub display_url: String,
    /// Scope that selected this registry, when known.
    pub scope: Option<String>,
}

/// Identity fields kept apart from display strings.
#[derive(Clone, Debug, PartialEq, Eq)]
pub struct AuthorityIdentityContext {
    /// Stable note that display strings are not identity keys.
    pub status: &'static str,
    /// Digest key of the redacted command intent.
    pub command_intent_key: String,
    /// Current-directory trust class.
    pub cwd_trust_class: String,
    /// Registry identity without credentials, when a registry is known.
    pub registry_key: Option<String>,
}

/// Runner context category.
#[derive(Clone, Copy, Debug, PartialEq, Eq, Structural)]
pub enum AuthorityRunnerContext {
    /// Human-declared local terminal runner.
    LocalTerminal,
    /// CI runner.
    Ci,
    /// Coding-agent runner.
    Agent,
    /// Runner context is unknown.
    Unknown,
}

/// Actor context category.
#[derive(Clone, Copy, Debug, PartialEq, Eq, Structural)]
pub enum AuthorityActorContext {
    /// Manual user.
    ManualUser,
    /// Coding agent.
    CodingAgent,
    /// Automation or CI actor.
    Automation,
    /// Actor context is unknown.
    Unknown,
}

/// Registry source category.
#[derive(Clone, Copy, Debug, PartialEq, Eq, Structural)]
pub enum AuthorityRegistryCategory {
    /// Public npm registry.
    PublicNpm,
    /// Scoped registry selected by package scope.
    ScopedRegistry,
    /// Custom unscoped registry.
    CustomRegistry,
    /// Registry source is unknown.
    Unknown,
}

/// Redacted authority context carried by inspect reports.
#[derive(Clone, Debug, PartialEq, Eq)]
pub struct AuthorityContext {
    /// Redacted command intent.
    pub command_intent: AuthorityDisplayValue,
    /// Caller-declared source context, or unknown when undeclared.
    pub source_context: SourceContext,
    /// Runner category derived from the declaration.
    pub runner_context: AuthorityRunnerContext,
    /// Actor category derived from the declaration.
    pub actor_context: AuthorityActorContext,
    /// Current-directory category and redacted display.
    pub cwd: AuthorityDisplayValue,
    /// Registry category and redacted display, when known.
    pub registry: Option<AuthorityRegistryContext>,
    /// Package scope category, when known.
    pub package_scope: Option<String>,
    /// Identity fields kept apart from display strings.
    pub identity: AuthorityIdentityContext,
    /// Reminder that authority context is not sandboxing.
    pub sandbox_boundary: &'static str,
}

/// Model of an [`AuthorityDisplayValue`].
pub struct DisplayView {
    pub category: Seq<char>,
    pub display: Seq<char>,
}

/// Model of an [`AuthorityRegistryContext`].
pub struct RegistryContextView {
    pub category: AuthorityRegistryCategory,
    pub display_url: Seq<char>,
    pub scope: Option<Seq<char>>,
}

/// Model of an [`AuthorityIdentityContext`].
pub struct IdentityView {
    pub status: Seq<char>,
    pub command_intent_key: Seq<char>,
    pub cwd_trust_class: Seq<char>,
    pub registry_key: Option<Seq<char>>,
}

/// Model of an [`AuthorityContext`].
pub struct AuthorityView {
    pub command_intent: DisplayView,
    pub source_context: SourceContext,
    pub runner_context: AuthorityRunnerContext,
    pub actor_context: AuthorityActorContext,
    pub cwd: DisplayView,
    pub registry: Option<RegistryContextView>,
    pub package_scope: Option<Seq<char>>,
    pub identity: IdentityView,
    pub sandbox_boundary: Seq<char>,
}

impl View for AuthorityDisplayValue {
    type V = DisplayView;

    open spec fn view(&self) -> DisplayView {
        DisplayView { category: self.category@, display: self.display@ }
    }
}

impl View for AuthorityRegistryContext {
    type V = RegistryContextView;

    open spec fn view(&self) -> RegistryContextView {
        RegistryContextView {
            category: self.category,
            display_url: self.display_url@,
            scope: self.scope.deep_view(),
        }
    }
}

impl View for AuthorityIdentityContext {
    type V = IdentityView;

    open spec fn view(&self) -> IdentityView {
        IdentityView {
            status: self.status@,
            command_intent_key: self.command_intent_key@,
            cwd_trust_class: self.cwd_trust_class@,
            registry_key: self.registry_key.deep_view(),
        }
    }
}

impl View for AuthorityContext {
    type V = AuthorityView;

    open spec fn view(&self) -> AuthorityView {
        AuthorityView {
            command_intent: self.command_intent@,
            source_context: self.source_context,
            runner_context: self.runner_context,
            actor_context: self.actor_context,
            cwd: self.cwd@,
            registry: match self.registry {
                Some(r) => Some(r@),
                None => None,
            },
            package_scope: self.package_scope.deep_view(),
            identity: self.identity@,
            sandbox_boundary: self.sandbox_boundary@,
        }
    }
}

// ---------------------------------------------------------------------------
// Categories
// ---------------------------------------------------------------------------

/// Runner category of a declared source context.
pub open spec fn runner_of(s: SourceContext) -> AuthorityRunnerContext {
    match s {
        SourceContext::ManualTerminal => AuthorityRunnerContext::LocalTerminal,
        SourceContext::Ci => AuthorityRunnerContext::Ci,
        SourceContext::AgentSkill => AuthorityRunnerContext::Agent,
        SourceContext::DocsSnippet | SourceContext::Unknown => AuthorityRunnerContext::Unknown,
    }
}

/// Actor category of a declared source context.
pub open spec fn actor_of(s: SourceContext) -> AuthorityActorContext {
    match s {
        SourceContext::ManualTerminal | SourceContext::DocsSnippet => AuthorityActorContext::ManualUser,
        SourceContext::AgentSkill => AuthorityActorContext::CodingAgent,
        SourceContext::Ci => AuthorityActorContext::Automation,
        SourceContext::Unknown => AuthorityActorContext::Unknown,
    }
}

fn runner_context(source_context: SourceContext) -> (r: AuthorityRunnerContext)
    ensures
        r == runner_of(source_context),
{
    match source_context {
        SourceContext::ManualTerminal => AuthorityRunnerContext::LocalTerminal,
        SourceContext::Ci => AuthorityRunnerContext::Ci,
        SourceContext::AgentSkill => AuthorityRunnerContext::Agent,
        SourceContext::DocsSnippet | SourceContext::Unknown => AuthorityRunnerContext::Unknown,
    }
}

fn actor_context(source_context: SourceContext) -> (r: AuthorityActorContext)
    ensures
        r == actor_of(source_context),
{
    match source_context {
        SourceContext::ManualTerminal | SourceContext::DocsSnippet => AuthorityActorContext::ManualUser,
        SourceContext::AgentSkill => AuthorityActorContext::CodingAgent,
        SourceContext::Ci => AuthorityActorContext::Automation,
        SourceContext::Unknown => AuthorityActorContext::Unknown,
    }
}

/// Category of a registry source: the public npm registry, a registry chosen
/// for a scope, or a custom one.
pub open spec fn registry_category(r: RegistrySourceView) -> AuthorityRegistryCategory {
    if r.url == PUBLIC_NPM_REGISTRY_URL@ {
        AuthorityRegistryCategory::PublicNpm
    } else if r.scope is Some {
        AuthorityRegistryCategory::ScopedRegistry
    } else {
        AuthorityRegistryCategory::CustomRegistry
    }
}

/// Debug name of a registry category.
pub open spec fn category_name(c: AuthorityRegistryCategory) -> Seq<char> {
    match c {
        AuthorityRegistryCategory::PublicNpm => "PublicNpm"@,
        AuthorityRegistryCategory::ScopedRegistry => "ScopedRegistry"@,
        AuthorityRegistryCategory::CustomRegistry => "CustomRegistry"@,
        AuthorityRegistryCategory::Unknown => "Unknown"@,
    }
}

fn category_name_str(c: AuthorityRegistryCategory) -> (r: &'static str)
    ensures
        r@ == category_name(c),
{
    match c {
        AuthorityRegistryCategory::PublicNpm => "PublicNpm",
        AuthorityRegistryCategory::ScopedRegistry => "ScopedRegistry",
        AuthorityRegistryCategory::CustomRegistry => "CustomRegistry",
        AuthorityRegistryCategory::Unknown => "Unknown",
    }
}

// ---------------------------------------------------------------------------
// Paths
// ---------------------------------------------------------------------------

/// The path has a root.
pub open spec fn is_absolute(p: Seq<char>) -> bool {
    p.len() > 0 && p[0] == '/'
}

/// A component that names something (not empty and not `.`).
pub open spec fn is_named(c: Seq<char>) -> bool {
    c.len() > 0 && c != "."@
}

/// Components of a `/`-separated path: `/` for the root, then the named
/// pieces (empty pieces and `.` are dropped).
pub open spec fn components(p: Seq<char>) -> Seq<Seq<char>> {
    let named = split(p, '/').filter(|c: Seq<char>| is_named(c));
    if is_absolute(p) {
        seq!["/"@] + named
    } else {
        named
    }
}

/// `base`'s components begin `p`'s.
pub open spec fn path_starts_with(p: Seq<char>, base: Seq<char>) -> bool {
    let a = components(base);
    let b = components(p);
    a.len() <= b.len() && b.subrange(0, a.len() as int) == a
}

/// Text of a list of components.
pub open spec fn components_text(c: Seq<Seq<char>>) -> Seq<char> {
    if c.len() > 0 && c[0] == "/"@ {
        "/"@ + join(c.drop_first(), "/"@)
    } else {
        join(c, "/"@)
    }
}

/// The path under a temporary directory.
pub open spec fn in_temp(p: Seq<char>, temp: Seq<char>) -> bool {
    path_starts_with(p, temp) || path_starts_with(p, "/tmp"@)
}

/// Trust class of the current directory.
pub open spec fn cwd_category(p: Seq<char>, home: Option<Seq<char>>, temp: Seq<char>) -> Seq<char> {
    if in_temp(p, temp) {
        "temp_directory"@
    } else if home matches Some(h) && path_starts_with(p, h) {
        "home_subtree"@
    } else if is_absolute(p) {
        "trusted_project"@
    } else {
        "unknown"@
    }
}

/// Display of a path outside the home directory: a placeholder for
/// absolute paths, the path itself for relative ones.
pub open spec fn outside_home_display(p: Seq<char>, temp: Seq<char>) -> Seq<char> {
    if is_absolute(p) {
        if in_temp(p, temp) {
            "<temp>"@
        } else {
            "<absolute-path>"@
        }
    } else {
        p
    }
}

/// Display of the current directory with the home directory replaced by
/// `<home>`.
pub open spec fn cwd_display(p: Seq<char>, home: Option<Seq<char>>, temp: Seq<char>) -> Seq<char> {
    match home {
        Some(h) => if path_starts_with(p, h) {
            let rest = components(p).subrange(components(h).len() as int, components(p).len() as int);
            if rest.len() == 0 {
                "<home>"@
            } else {
                "<home>/"@ + components_text(rest)
            }
        } else {
            outside_home_display(p, temp)
        },
        None => outside_home_display(p, temp),
    }
}

/// The components of a path.
fn path_components(p: &str) -> (r: Vec<&str>)
    ensures
        views(r@) == components(p@),
{
    let pieces = split_str(p, '/');
    let mut out: Vec<&str> = Vec::new();
    let absolute = p.unicode_len() > 0 && p.get_char(0) == '/';
    if absolute {
        out.push("/");
    }
    let ghost start = views(out@);
    let ghost all = views(pieces@);
    let mut i: usize = 0;
    while i < pieces.len()
        invariant
            i <= pieces@.len(),
            all == views(pieces@),
            all == split(p@, '/'),
            start == (if is_absolute(p@) { seq!["/"@] } else { Seq::<Seq<char>>::empty() }),
            views(out@) == start + all.subrange(0, i as int).filter(|c: Seq<char>| is_named(c)),
        decreases pieces@.len() - i,
    {
        let piece = pieces[i];
        assert(all.subrange(0, i + 1) == all.subrange(0, i as int).push(piece@));
        proof {
            all.subrange(0, i as int).lemma_filter_push(piece@, |c: Seq<char>| is_named(c));
        }
        if piece.unicode_len() > 0 && !str_eq(piece, ".") {
            assert(views(out@.push(piece)) == views(out@).push(piece@));
            out.push(piece);
        }
        i = i + 1;
    }
    assert(all.subrange(0, all.len() as int) == all);
    out
}

/// Whether the first components are `prefix`'s; the number of them.
fn components_prefix(path: &Vec<&str>, prefix: &Vec<&str>) -> (r: bool)
    ensures
        r == (views(prefix@).len() <= views(path@).len() && views(path@).subrange(
            0,
            views(prefix@).len() as int,
        ) == views(prefix@)),
{
    if prefix.len() > path.len() {
        return false;
    }
    let mut i: usize = 0;
    while i < prefix.len()
        invariant
            prefix@.len() <= path@.len(),
            i <= prefix@.len(),
            views(path@).subrange(0, i as int) == views(prefix@).subrange(0, i as int),
        decreases prefix@.len() - i,
    {
        if !str_eq(path[i], prefix[i]) {
            assert(views(path@).subrange(0, prefix@.len() as int)[i as int] != views(prefix@)[i as int]);
            return false;
        }
        assert(views(path@).subrange(0, i + 1) == views(path@).subrange(0, i as int).push(path@[i as int]@));
        assert(views(prefix@).subrange(0, i + 1) == views(prefix@).subrange(0, i as int).push(prefix@[i as int]@));
        i = i + 1;
    }
    assert(views(prefix@).subrange(0, prefix@.len() as int) == views(prefix@));
    true
}

/// Whether `p` lies under `base`.
pub fn path_starts_with_exec(p: &str, base: &str) -> (r: bool)
    ensures
        r == path_starts_with(p@, base@),
{
    let a = path_components(p);
    let b = path_components(base);
    components_prefix(&a, &b)
}

fn in_temp_exec(p: &str, temp: &str) -> (r: bool)
    ensures
        r == in_temp(p@, temp@),
{
    path_starts_with_exec(p, temp) || path_starts_with_exec(p, "/tmp")
}

fn cwd_category_exec(p: &str, home: Option<&str>, temp: &str) -> (r: String)
    ensures
        r@ == cwd_category(p@, opt_view(home), temp@),
{
    if in_temp_exec(p, temp) {
        return "temp_directory".to_owned();
    }
    if let Some(h) = home {
        if path_starts_with_exec(p, h) {
            return "home_subtree".to_owned();
        }
    }
    if p.unicode_len() > 0 && p.get_char(0) == '/' {
        "trusted_project".to_owned()
    } else {
        "unknown".to_owned()
    }
}

fn outside_home_display_exec(p: &str, temp: &str) -> (r: String)
    ensures
        r@ == outside_home_display(p@, temp@),
{
    if p.unicode_len() > 0 && p.get_char(0) == '/' {
        if in_temp_exec(p, temp) {
            "<temp>".to_owned()
        } else {
            "<absolute-path>".to_owned()
        }
    } else {
        p.to_owned()
    }
}

/// Text of the components from `from` on.
fn components_text_from(c: &Vec<&str>, from: usize) -> (r: String)
    requires
        from <= c@.len(),
    ensures
        r@ == components_text(views(c@).subrange(from as int, c@.len() as int)),
{
    let ghost rest = views(c@).subrange(from as int, c@.len() as int);
    let mut start = from;
    let mut out = String::new();
    if from < c.len() && str_eq(c[from], "/") {
        out.append("/");
        start = from + 1;
        assert(rest.drop_first() == views(c@).subrange(start as int, c@.len() as int));
    }
    let mut pieces: Vec<String> = Vec::new();
    let mut i: usize = start;
    while i < c.len()
        invariant
            start <= i <= c@.len(),
            string_views(pieces@) == views(c@).subrange(start as int, i as int),
        decreases c@.len() - i,
    {
        let one = c[i].to_owned();
        assert(string_views(pieces@.push(one)) == string_views(pieces@).push(c@[i as int]@));
        pieces.push(one);
        assert(views(c@).subrange(start as int, i + 1) == views(c@).subrange(start as int, i as int).push(c@[i as int]@));
        i = i + 1;
    }
    let joined = join_strings(&pieces, "/");
    out.append(joined.as_str());
    out
}

fn cwd_display_exec(p: &str, home: Option<&str>, temp: &str) -> (r: String)
    ensures
        r@ == cwd_display(p@, opt_view(home), temp@),
{
    match home {
        Some(h) => {
            let pc = path_components(p);
            let hc = path_components(h);
            if components_prefix(&pc, &hc) {
                if hc.len() == pc.len() {
                    "<home>".to_owned()
                } else {
                    let mut out = "<home>/".to_owned();
                    let tail = components_text_from(&pc, hc.len());
                    out.append(tail.as_str());
                    out
                }
            } else {
                outside_home_display_exec(p, temp)
            }
        },
        None => outside_home_display_exec(p, temp),
    }
}

// ---------------------------------------------------------------------------
// The context
// ---------------------------------------------------------------------------

/// Status of the identity fields.
pub const IDENTITY_STATUS: &'static str = "reserved_for_canonical_receipt_identity";

/// Reminder carried by every authority context.
pub const SANDBOX_BOUNDARY: &'static str =
    "authority context describes ambient process authority; it is not sandboxing";

/// The view of an optional registry source.
pub open spec fn opt_registry_view(r: Option<&RegistrySource>) -> Option<RegistrySourceView> {
    match r {
        Some(x) => Some(x@),
        None => None,
    }
}

/// Registry context: category, redacted URL and scope.
pub open spec fn registry_context(r: RegistrySourceView, home: Option<Seq<char>>) -> RegistryContextView {
    RegistryContextView {
        category: registry_category(r),
        display_url: redacted(r.url, home),
        scope: r.scope,
    }
}

/// Registry identity: category name, scope (or `unscoped`) and the digest
/// key of the redacted URL, separated by `:`.
pub open spec fn registry_key(r: RegistrySourceView, home: Option<Seq<char>>) -> Seq<char> {
    category_name(registry_category(r)) + ":"@ + match r.scope {
        Some(s) => s,
        None => "unscoped"@,
    } + ":"@ + digest_key("registry"@, redacted(r.url, home))
}

/// Current-directory display value; `unknown` when the directory is unknown.
pub open spec fn cwd_value(cwd: Option<Seq<char>>, home: Option<Seq<char>>, temp: Seq<char>) -> DisplayView {
    match cwd {
        Some(p) => DisplayView { category: cwd_category(p, home, temp), display: cwd_display(p, home, temp) },
        None => DisplayView { category: "unknown"@, display: "unknown"@ },
    }
}

/// The authority context of a command.
pub open spec fn authority_model(
    command: Seq<char>,
    source_context: SourceContext,
    registry: Option<RegistrySourceView>,
    package_scope: Option<Seq<char>>,
    cwd: Option<Seq<char>>,
    home: Option<Seq<char>>,
    temp: Seq<char>,
) -> AuthorityView {
    AuthorityView {
        command_intent: DisplayView { category: "command_intent"@, display: redacted(command, home) },
        source_context,
        runner_context: runner_of(source_context),
        actor_context: actor_of(source_context),
        cwd: cwd_value(cwd, home, temp),
        registry: match registry {
            Some(r) => Some(registry_context(r, home)),
            None => None,
        },
        package_scope,
        identity: IdentityView {
            status: IDENTITY_STATUS@,
            command_intent_key: digest_key("command"@, redacted(command, home)),
            cwd_trust_class: cwd_value(cwd, home, temp).category,
            registry_key: match registry {
                Some(r) => Some(registry_key(r, home)),
                None => None,
            },
        },
        sandbox_boundary: SANDBOX_BOUNDARY@,
    }
}

fn redacted_registry(registry: &RegistrySource, home: Option<&str>) -> (r: AuthorityRegistryContext)
    ensures
        r@ == registry_context(registry@, opt_view(home)),
{
    let category = if str_eq(registry.url.as_str(), PUBLIC_NPM_REGISTRY_URL) {
        AuthorityRegistryCategory::PublicNpm
    } else if registry.scope.is_some() {
        AuthorityRegistryCategory::ScopedRegistry
    } else {
        AuthorityRegistryCategory::CustomRegistry
    };
    AuthorityRegistryContext {
        category,
        display_url: redact_report_value(registry.url.as_str(), home),
        scope: clone_opt_string(&registry.scope),
    }
}

fn registry_identity_key(registry: &RegistrySource, context: &AuthorityRegistryContext, home: Option<&str>) -> (r: String)
    requires
        context@ == registry_context(registry@, opt_view(home)),
    ensures
        r@ == registry_key(registry@, opt_view(home)),
{
    let mut out = category_name_str(context.category).to_owned();
    out.append(":");
    match &registry.scope {
        Some(s) => out.append(s.as_str()),
        None => out.append("unscoped"),
    }
    out.append(":");
    let url = redact_report_value(registry.url.as_str(), home);
    let key = digest_report_key("registry", url.as_str());
    out.append(key.as_str());
    out
}

/// Build the redacted authority context of a command with the current,
/// home and temporary directories given.
pub fn build_authority_context_with_paths(
    command: &str,
    source_context: &SourceContext,
    registry: Option<&RegistrySource>,
    package_scope: Option<String>,
    cwd: Option<&str>,
    home: Option<&str>,
    temp_dir: &str,
) -> (r: AuthorityContext)
    ensures
        r@ == authority_model(
            command@,
            *source_context,
            opt_registry_view(registry),
            package_scope.deep_view(),
            opt_view(cwd),
            opt_view(home),
            temp_dir@,
        ),
{
    let display = redact_report_value(command, home);
    let command_intent_key = digest_report_key("command", display.as_str());
    let command_intent = AuthorityDisplayValue { category: "command_intent".to_owned(), display };
    let cwd_value = match cwd {
        Some(p) => AuthorityDisplayValue {
            category: cwd_category_exec(p, home, temp_dir),
            display: cwd_display_exec(p, home, temp_dir),
        },
        None => AuthorityDisplayValue { category: "unknown".to_owned(), display: "unknown".to_owned() },
    };
    let (registry_context, registry_key) = match registry {
        Some(raw) => {
            let context = redacted_registry(raw, home);
            let key = registry_identity_key(raw, &context, home);
            (Some(context), Some(key))
        },
        None => (None, None),
    };
    let cwd_trust_class = cwd_value.category.clone();
    AuthorityContext {
        command_intent,
        source_context: *source_context,
        runner_context: runner_context(*source_context),
        actor_context: actor_context(*source_context),
        cwd: cwd_value,
        registry: registry_context,
        package_scope,
        identity: AuthorityIdentityContext {
            status: IDENTITY_STATUS,
            command_intent_key,
            cwd_trust_class,
            registry_key,
        },
        sandbox_boundary: SANDBOX_BOUNDARY,
    }
}

/// Directories of the running process that the authority context
/// classifies: the current directory and home directory when known, and the
/// temporary directory.
#[derive(Clone, Debug, PartialEq, Eq)]
pub struct AmbientPaths {
    /// Current directory, when known.
    pub cwd: Option<String>,
    /// Home directory, when known.
    pub home: Option<String>,
    /// Temporary directory.
    pub temp_dir: String,
}

pub(crate) fn opt_str(o: &Option<String>) -> (r: Option<&str>)
    ensures
        opt_view(r) == o.deep_view(),
{
    match o {
        Some(s) => Some(s.as_str()),
        None => None,
    }
}

/// Build the redacted authority context of a command in the given process
/// directories.
pub fn build_authority_context(
    command: &str,
    source_context: &SourceContext,
    registry: Option<&RegistrySource>,
    package_scope: Option<String>,
    ambient: &AmbientPaths,
) -> (r: AuthorityContext)
    ensures
        r@ == authority_model(
            command@,
            *source_context,
            opt_registry_view(registry),
            package_scope.deep_view(),
            ambient.cwd.deep_view(),
            ambient.home.deep_view(),
            ambient.temp_dir@,
        ),
{
    build_authority_context_with_paths(
        command,
        source_context,
        registry,
        package_scope,
        opt_str(&ambient.cwd),
        opt_str(&ambient.home),
        ambient.temp_dir.as_str(),
    )
}

/// Package scope category of a parsed spec.
pub open spec fn scope_category(p: ParseView) -> Option<Seq<char>> {
    match p {
        ParseView::Supported(s) => Some(if s.scope is Some { "scoped"@ } else { "unscoped"@ }),
        _ => None,
    }
}

/// Package scope category of a parsed spec: `scoped` or `unscoped` for a
/// supported spec, none otherwise.
pub fn package_scope_for_parse(package_spec: &PackageSpecParse) -> (r: Option<String>)
    ensures
        r.deep_view() == scope_category(package_spec@),
{
    match package_spec {
        PackageSpecParse::Supported(spec) => Some(
            if spec.scope.is_some() {
                "scoped".to_owned()
            } else {
                "unscoped".to_owned()
            },
        ),
        PackageSpecParse::Unsupported(_) | PackageSpecParse::Malformed(_) => None,
    }
}

} // verus!
