use safe_npx::closure::{ClosureDecision, M2Reason};
use safe_npx::contracts::{PackageSpec, RegistrySource};
use safe_npx::registry_precedence::{
    normalize_registry_url, require_registry_agreement, resolve_registry_source, NpmRegistryConfig,
    PUBLIC_NPM_REGISTRY_URL,
};

fn unscoped_spec() -> PackageSpec {
    PackageSpec::exact("create-example@1.2.3", "create-example", "1.2.3", None)
}

fn scoped_spec() -> PackageSpec {
    PackageSpec::exact(
        "@scope/create-example@1.2.3",
        "@scope/create-example",
        "1.2.3",
        Some("scope".to_string()),
    )
}

#[test]
fn public_default_registry_is_recorded() {
    let source = resolve_registry_source(&unscoped_spec(), &NpmRegistryConfig::default());

    assert_eq!(source.url, PUBLIC_NPM_REGISTRY_URL);
    assert_eq!(source.scope, None);
}

#[test]
fn local_unscoped_registry_is_selected() {
    let source = resolve_registry_source(
        &unscoped_spec(),
        &NpmRegistryConfig {
            env_registry: None,
            local_npmrc: Some("registry=https://fixture.registry.test/npm".to_string()),
        },
    );

    assert_eq!(source.url, "https://fixture.registry.test/npm/");
    assert_eq!(source.scope, None);
}

#[test]
fn scoped_registry_is_selected_from_local_npmrc() {
    let source = resolve_registry_source(
        &scoped_spec(),
        &NpmRegistryConfig {
            env_registry: None,
            local_npmrc: Some(
                "registry=https://fixture.registry.test/default\n@scope:registry=https://scope.registry.test/npm"
                    .to_string(),
            ),
        },
    );

    assert_eq!(source.url, "https://scope.registry.test/npm/");
    assert_eq!(source.scope.as_deref(), Some("scope"));
}

#[test]
fn env_registry_override_wins() {
    let source = resolve_registry_source(
        &scoped_spec(),
        &NpmRegistryConfig {
            env_registry: Some("https://env.registry.test".to_string()),
            local_npmrc: Some("@scope:registry=https://scope.registry.test".to_string()),
        },
    );

    assert_eq!(source.url, "https://env.registry.test/");
    assert_eq!(source.scope.as_deref(), Some("scope"));
}

#[test]
fn conflicting_registry_sources_fail_closed() {
    let inspected = RegistrySource {
        url: "https://registry.npmjs.org/".to_string(),
        scope: None,
    };
    let execution = RegistrySource {
        url: "https://fixture.registry.test/".to_string(),
        scope: None,
    };

    let mismatch = require_registry_agreement(&inspected, &execution)
        .expect_err("mismatched registry should fail closed");

    assert_eq!(mismatch.decision, ClosureDecision::ExecutionRefused);
    assert_eq!(mismatch.reason, M2Reason::RegistryPrecedenceMismatch);
    assert_eq!(mismatch.inspected, inspected);
    assert_eq!(mismatch.execution, execution);
}

#[test]
fn matching_registry_sources_agree() {
    let source = RegistrySource {
        url: "https://registry.npmjs.org/".to_string(),
        scope: None,
    };

    assert_eq!(require_registry_agreement(&source, &source), Ok(()));
}

#[test]
fn npmrc_comments_and_blank_lines_are_ignored() {
    let source = resolve_registry_source(
        &unscoped_spec(),
        &NpmRegistryConfig {
            env_registry: None,
            local_npmrc: Some("\n# comment\n; also comment\n registry = https://fixture.registry.test \n".to_string()),
        },
    );

    assert_eq!(source.url, "https://fixture.registry.test/");
}

#[test]
fn normalizing_twice_changes_nothing() {
    for url in ["https://a.test", " https://a.test/ ", "https://a.test//"] {
        let once = normalize_registry_url(url);
        assert_eq!(normalize_registry_url(&once), once);
    }
    assert_eq!(normalize_registry_url(" https://a.test "), "https://a.test/");
}
