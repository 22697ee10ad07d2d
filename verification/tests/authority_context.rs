use safe_npx::authority_context::{
    build_authority_context_with_paths, package_scope_for_parse, AuthorityActorContext,
    AuthorityRegistryCategory, AuthorityRunnerContext,
};
use safe_npx::contracts::{RegistrySource, SourceContext};
use safe_npx::parser::classify_package_spec;
use safe_npx::registry_precedence::PUBLIC_NPM_REGISTRY_URL;

#[test]
fn authority_context_redacts_registry_tokens_and_separates_identity_fields() {
    let registry = RegistrySource {
        url: "https://secret-token@registry.example.test/npm/".to_string(),
        scope: Some("@scope".to_string()),
    };
    let authority = build_authority_context_with_paths(
        "@scope/create-example@1.2.3",
        &SourceContext::ManualTerminal,
        Some(&registry),
        Some("scoped".to_string()),
        Some("/workspace/project"),
        Some("/Users/alice"),
        "/tmp",
    );
    let registry = authority.registry.expect("registry should render");

    assert_eq!(registry.category, AuthorityRegistryCategory::ScopedRegistry);
    assert_eq!(
        registry.display_url,
        "https://<redacted>@registry.example.test/npm/"
    );
    assert!(!registry.display_url.contains("secret-token"));
    assert_eq!(
        authority.identity.status,
        "reserved_for_canonical_receipt_identity"
    );
}

#[test]
fn authority_context_redacts_home_paths_and_classifies_temp_directories() {
    let home_authority = build_authority_context_with_paths(
        "/Users/alice/project/create-example@1.2.3",
        &SourceContext::DocsSnippet,
        None,
        None,
        Some("/Users/alice/project"),
        Some("/Users/alice"),
        "/tmp",
    );
    let temp_authority = build_authority_context_with_paths(
        "create-example@1.2.3",
        &SourceContext::Ci,
        None,
        None,
        Some("/tmp/safe-npx-test"),
        Some("/Users/alice"),
        "/tmp",
    );

    assert_eq!(home_authority.cwd.category, "home_subtree");
    assert_eq!(home_authority.cwd.display, "<home>/project");
    assert_eq!(
        home_authority.command_intent.display,
        "<home>/project/create-example@1.2.3"
    );
    assert!(!home_authority.cwd.display.contains("/Users/alice"));
    assert_eq!(temp_authority.cwd.category, "temp_directory");
    assert_eq!(temp_authority.cwd.display, "<temp>");
}

#[test]
fn authority_context_covers_public_npm_ci_and_agent_categories() {
    let registry = RegistrySource {
        url: PUBLIC_NPM_REGISTRY_URL.to_string(),
        scope: None,
    };
    let ci_authority = build_authority_context_with_paths(
        "create-example@1.2.3",
        &SourceContext::Ci,
        Some(&registry),
        Some("unscoped".to_string()),
        Some("/workspace/project"),
        None,
        "/tmp",
    );
    let agent_authority = build_authority_context_with_paths(
        "create-example@1.2.3",
        &SourceContext::AgentSkill,
        None,
        None,
        Some("/workspace/project"),
        None,
        "/tmp",
    );

    assert_eq!(ci_authority.runner_context, AuthorityRunnerContext::Ci);
    assert_eq!(
        ci_authority.actor_context,
        AuthorityActorContext::Automation
    );
    assert_eq!(
        ci_authority.registry.expect("registry").category,
        AuthorityRegistryCategory::PublicNpm
    );
    assert_eq!(
        agent_authority.runner_context,
        AuthorityRunnerContext::Agent
    );
    assert_eq!(
        agent_authority.actor_context,
        AuthorityActorContext::CodingAgent
    );
}

#[test]
fn cwd_outside_home_and_unknown_cwd_are_placeholders() {
    let trusted = build_authority_context_with_paths(
        "x@1.0.0",
        &SourceContext::Unknown,
        None,
        None,
        Some("/workspace/customer/private-repo"),
        Some("/Users/alice"),
        "/var/tmp",
    );
    assert_eq!(trusted.cwd.category, "trusted_project");
    assert_eq!(trusted.cwd.display, "<absolute-path>");
    assert_eq!(trusted.identity.cwd_trust_class, "trusted_project");
    assert_eq!(trusted.runner_context, AuthorityRunnerContext::Unknown);
    assert_eq!(trusted.actor_context, AuthorityActorContext::Unknown);

    let home_itself = build_authority_context_with_paths(
        "x@1.0.0",
        &SourceContext::ManualTerminal,
        None,
        None,
        Some("/Users/alice/"),
        Some("/Users/alice"),
        "/tmp",
    );
    assert_eq!(home_itself.cwd.display, "<home>");
    assert_eq!(home_itself.runner_context, AuthorityRunnerContext::LocalTerminal);

    let sibling = build_authority_context_with_paths(
        "x@1.0.0",
        &SourceContext::Unknown,
        None,
        None,
        Some("/Users/alicex/work"),
        Some("/Users/alice"),
        "/tmp",
    );
    assert_eq!(sibling.cwd.category, "trusted_project");

    let unknown = build_authority_context_with_paths(
        "x@1.0.0",
        &SourceContext::Unknown,
        None,
        None,
        None,
        None,
        "/tmp",
    );
    assert_eq!(unknown.cwd.category, "unknown");
    assert_eq!(unknown.cwd.display, "unknown");

    let relative = build_authority_context_with_paths(
        "x@1.0.0",
        &SourceContext::Unknown,
        None,
        None,
        Some("work/repo"),
        None,
        "/tmp",
    );
    assert_eq!(relative.cwd.category, "unknown");
    assert_eq!(relative.cwd.display, "work/repo");
}

#[test]
fn registry_identity_key_has_category_scope_and_digest() {
    let registry = RegistrySource {
        url: "https://registry.example.test/".to_string(),
        scope: None,
    };
    let authority = build_authority_context_with_paths(
        "x@1.0.0",
        &SourceContext::Unknown,
        Some(&registry),
        None,
        None,
        None,
        "/tmp",
    );
    let key = authority.identity.registry_key.expect("registry key");
    assert!(key.starts_with("CustomRegistry:unscoped:sha256:"));
    assert_eq!(key.len(), "CustomRegistry:unscoped:sha256:".len() + 64);
    assert!(authority.identity.command_intent_key.starts_with("sha256:"));
}

#[test]
fn package_scope_follows_parse_result() {
    assert_eq!(
        package_scope_for_parse(&classify_package_spec("@scope/create-example@1.2.3")),
        Some("scoped".to_string())
    );
    assert_eq!(
        package_scope_for_parse(&classify_package_spec("create-example@1.2.3")),
        Some("unscoped".to_string())
    );
    assert_eq!(package_scope_for_parse(&classify_package_spec("create-example@latest")), None);
}

/// Redaction fixture rows: id|kind|input|must not appear|must appear.
const AUTHORITY_REDACTION_FIXTURES: &str = "# id|kind|input|forbidden|expected
report_token|report_value|npm_token=abc123secret|abc123secret|<redacted>
report_authorization|report_value|Authorization: Bearer abc123secret|abc123secret|Authorization: <redacted>
report_home_path|report_value|/Users/alice/private/pkg|/Users/alice|<home>/private/pkg
report_url_userinfo|report_value|https://secret-token@registry.example.test/npm/|secret-token|https://<redacted>@registry.example.test
cwd_home_subtree|cwd|/Users/alice/project|/Users/alice|home_subtree <home>/project
cwd_outside_home|cwd|/workspace/customer/private-repo|private-repo|trusted_project <absolute-path>
cwd_temp|cwd|/tmp/build|/tmp/build|temp_directory <temp>
source_ci|source_context|ci|local_terminal|ci automation
source_agent|source_context|agent_skill|manual_user|agent coding_agent
registry_userinfo|registry|https://secret-token@registry.example.test/npm/|secret-token|registry.example.test
";

fn render_fixture(kind: &str, input: &str) -> String {
    match kind {
        "report_value" => safe_npx::redaction::redact_report_value(input, None),
        "cwd" => {
            let context = build_authority_context_with_paths(
                "create-example@1.2.3",
                &SourceContext::Unknown,
                None,
                Some("unscoped".to_string()),
                Some(input),
                Some("/Users/alice"),
                "/tmp",
            );
            format!("{} {}", context.cwd.category, context.cwd.display)
        }
        "source_context" => {
            let source_context = match input {
                "ci" => SourceContext::Ci,
                "agent_skill" => SourceContext::AgentSkill,
                other => panic!("unknown source context fixture: {other}"),
            };
            let context = build_authority_context_with_paths(
                "create-example@1.2.3",
                &source_context,
                None,
                Some("unscoped".to_string()),
                Some("/workspace/repo"),
                Some("/Users/alice"),
                "/tmp",
            );
            let runner = match context.runner_context {
                AuthorityRunnerContext::Ci => "ci",
                AuthorityRunnerContext::Agent => "agent",
                AuthorityRunnerContext::LocalTerminal => "local_terminal",
                AuthorityRunnerContext::Unknown => "unknown",
            };
            let actor = match context.actor_context {
                AuthorityActorContext::Automation => "automation",
                AuthorityActorContext::CodingAgent => "coding_agent",
                AuthorityActorContext::ManualUser => "manual_user",
                AuthorityActorContext::Unknown => "unknown",
            };
            format!("{runner} {actor}")
        }
        "registry" => {
            let registry = RegistrySource { url: input.to_string(), scope: Some("scope".to_string()) };
            let context = build_authority_context_with_paths(
                "@scope/create-example@1.2.3",
                &SourceContext::Unknown,
                Some(&registry),
                Some("scoped".to_string()),
                Some("/workspace/repo"),
                Some("/Users/alice"),
                "/tmp",
            );
            context.registry.expect("registry fixture should include registry").display_url
        }
        other => panic!("unknown fixture kind: {other}"),
    }
}

#[test]
fn authority_redaction_fixture_manifest_is_enforced() {
    let mut fixture_count = 0;
    for line in AUTHORITY_REDACTION_FIXTURES.lines() {
        if line.is_empty() || line.starts_with('#') {
            continue;
        }
        fixture_count += 1;
        let columns = line.split('|').collect::<Vec<_>>();
        assert_eq!(columns.len(), 5, "invalid fixture row: {line}");
        let actual = render_fixture(columns[1], columns[2]);
        assert!(!actual.contains(columns[3]), "fixture {} leaked {} in {actual}", columns[0], columns[3]);
        assert!(actual.contains(columns[4]), "fixture {} missed {} in {actual}", columns[0], columns[4]);
    }
    assert!(fixture_count >= 8);
}
