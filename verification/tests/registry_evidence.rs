use safe_npx::contracts::{PackageSpec, RegistrySource, ResolvedPackage};
use safe_npx::evidence::{PackageScopeCategory, RegistryEvidence};
use safe_npx::registry::build_registry_evidence;

fn evidence(root: &str, version: &str, dist: &str, package_spec: PackageSpec) -> RegistryEvidence {
    let registry = RegistrySource { url: "https://registry.npmjs.org/".to_string(), scope: package_spec.scope.clone() };
    let resolved = ResolvedPackage {
        name: package_spec.name.clone(),
        version: package_spec.version.clone(),
        registry: registry.clone(),
        tarball_url: "https://registry.npmjs.org/create-example/-/create-example-1.2.3.tgz".to_string(),
        integrity: "sha512-fixture".to_string(),
    };
    build_registry_evidence(&package_spec, &registry, root, version, dist, &resolved)
}

fn package_spec(scope: Option<&str>) -> PackageSpec {
    match scope {
        Some(scope) => PackageSpec::exact("@scope/create-example@1.2.3", "@scope/create-example", "1.2.3", Some(scope.to_string())),
        None => PackageSpec::exact("create-example@1.2.3", "create-example", "1.2.3", None),
    }
}

fn dist_json() -> &'static str {
    r#"{
        "integrity": "sha512-fixture",
        "tarball": "https://registry.npmjs.org/create-example/-/create-example-1.2.3.tgz"
    }"#
}

#[test]
fn extracts_public_registry_optional_metadata() {
    let root = r#"{
        "time": {"1.2.3": "2026-06-26T07:00:00.000Z"},
        "maintainers": [{"name": "Alice", "email": "alice@example.test"}],
        "repository": {"url": "https://github.com/example/create-example"},
        "license": "Apache-2.0"
    }"#;
    let version = r#"{
        "_npmUser": {"name": "Publisher", "email": "publisher@example.test"},
        "repository": {"url": "https://github.com/example/version-repo"},
        "license": "MIT"
    }"#;
    let dist = r#"{
        "integrity": "sha512-fixture",
        "tarball": "https://registry.npmjs.org/create-example/-/create-example-1.2.3.tgz",
        "signatures": [{"keyid": "fixture"}]
    }"#;
    let evidence = evidence(root, version, dist, package_spec(None));

    assert_eq!(evidence.package_scope, PackageScopeCategory::Unscoped);
    assert_eq!(evidence.publish_time, Some("2026-06-26T07:00:00.000Z".to_string()));
    assert_eq!(evidence.maintainers[0].name, Some("Alice".to_string()));
    assert_eq!(evidence.publisher.expect("publisher should parse").name, Some("Publisher".to_string()));
    assert_eq!(evidence.repository, Some("https://github.com/example/version-repo".to_string()));
    assert_eq!(evidence.license, Some("MIT".to_string()));
    assert!(evidence.provenance.iter().any(|(k, _)| k == "dist.signatures"));
    assert_eq!(evidence.dist_integrity, "sha512-fixture");
}

#[test]
fn missing_optional_metadata_is_absent() {
    let evidence = evidence("{}", "{}", dist_json(), package_spec(None));

    assert_eq!(evidence.publish_time, None);
    assert!(evidence.maintainers.is_empty());
    assert_eq!(evidence.publisher, None);
    assert_eq!(evidence.repository, None);
    assert_eq!(evidence.license, None);
    assert!(evidence.provenance.is_empty());
}

#[test]
fn scoped_registry_metadata_records_scope_category() {
    let evidence = evidence("{}", "{}", dist_json(), package_spec(Some("scope")));

    assert_eq!(evidence.package_scope, PackageScopeCategory::Scoped);
    assert_eq!(evidence.registry.scope, Some("scope".to_string()));
}

#[test]
fn malformed_optional_metadata_is_ignored() {
    let root = r#"{"time": [], "maintainers": "nobody", "license": {"bad": true}}"#;
    let version = r#"{"_npmUser": [], "repository": 12, "license": []}"#;
    let evidence = evidence(root, version, dist_json(), package_spec(None));

    assert_eq!(evidence.publish_time, None);
    assert!(evidence.maintainers.is_empty());
    assert_eq!(evidence.publisher, None);
    assert_eq!(evidence.repository, None);
    assert_eq!(evidence.license, None);
}
