use safe_npx::contracts::{M1Reason, PackageSpec, RegistrySource};
use safe_npx::evidence::ResolvedRegistryPackage;
use safe_npx::registry::{
    NpmMetadataClient, RegistryHttpResponse, RegistryResolutionError, RegistryTransport,
    RegistryTransportError,
};
use safe_npx::registry_precedence::PUBLIC_NPM_REGISTRY_URL;
use std::cell::RefCell;

#[derive(Debug)]
struct StubTransport {
    responses: RefCell<Vec<Result<RegistryHttpResponse, RegistryTransportError>>>,
    requested_urls: RefCell<Vec<String>>,
}

impl StubTransport {
    fn new(responses: Vec<Result<RegistryHttpResponse, RegistryTransportError>>) -> Self {
        Self {
            responses: RefCell::new(responses),
            requested_urls: RefCell::new(Vec::new()),
        }
    }

    fn requested_url(&self) -> String {
        self.requested_urls
            .borrow()
            .first()
            .expect("stub should record a request")
            .clone()
    }
}

impl RegistryTransport for StubTransport {
    fn get(&self, url: &str) -> Result<RegistryHttpResponse, RegistryTransportError> {
        self.requested_urls.borrow_mut().push(url.to_string());
        self.responses.borrow_mut().remove(0)
    }
}

fn response(status: u16, body: &str) -> RegistryHttpResponse {
    RegistryHttpResponse {
        status,
        body: body.to_string(),
    }
}

fn successful_body() -> &'static str {
    r#"{
        "name": "create-example",
        "versions": {
            "1.2.3": {
                "name": "create-example",
                "version": "1.2.3",
                "dist": {
                    "tarball": "https://registry.npmjs.org/create-example/-/create-example-1.2.3.tgz",
                    "integrity": "sha512-fixture"
                }
            }
        }
    }"#
}

fn scoped_successful_body() -> &'static str {
    r#"{
        "versions": {
            "1.2.3": {
                "version": "1.2.3",
                "dist": {
                    "tarball": "https://scope.registry.test/npm/@scope/create-example/-/create-example-1.2.3.tgz",
                    "integrity": "sha512-fixture"
                }
            }
        }
    }"#
}

fn assert_reason(result: Result<ResolvedRegistryPackage, RegistryResolutionError>, expected_reason: M1Reason) {
    let error = result.expect_err("resolution should fail");

    assert_eq!(error.reason, expected_reason);
}

fn unscoped_spec(version: &str) -> PackageSpec {
    PackageSpec::exact(&format!("create-example@{version}"), "create-example", version, None)
}

fn scoped_spec() -> PackageSpec {
    PackageSpec::exact(
        "@scope/create-example@1.2.3",
        "@scope/create-example",
        "1.2.3",
        Some("scope".to_string()),
    )
}

#[test]
fn builds_unscoped_metadata_url() {
    let client = NpmMetadataClient::public(StubTransport::new(Vec::new()));

    assert_eq!(client.metadata_url(&unscoped_spec("1.2.3")), "https://registry.npmjs.org/create-example");
}

#[test]
fn builds_scoped_metadata_url() {
    let client = NpmMetadataClient::public(StubTransport::new(Vec::new()));

    assert_eq!(
        client.metadata_url(&scoped_spec()),
        "https://registry.npmjs.org/%40scope%2Fcreate-example"
    );
}

#[test]
fn resolves_exact_version_metadata() {
    let transport = StubTransport::new(vec![Ok(response(200, successful_body()))]);
    let client = NpmMetadataClient::public(transport);

    let resolved = client
        .resolve_exact(&unscoped_spec("1.2.3"))
        .expect("stubbed metadata should resolve")
        .resolved_package;

    assert_eq!(resolved.name, "create-example");
    assert_eq!(resolved.version, "1.2.3");
    assert_eq!(resolved.registry.url, PUBLIC_NPM_REGISTRY_URL);
    assert_eq!(resolved.registry.scope, None);
    assert_eq!(
        resolved.tarball_url,
        "https://registry.npmjs.org/create-example/-/create-example-1.2.3.tgz"
    );
    assert_eq!(resolved.integrity, "sha512-fixture");
}

#[test]
fn resolves_with_selected_registry_source() {
    let registry = RegistrySource {
        url: "https://scope.registry.test/npm/".to_string(),
        scope: Some("scope".to_string()),
    };
    let transport = StubTransport::new(vec![Ok(response(200, scoped_successful_body()))]);
    let client = NpmMetadataClient::from_registry_source(&registry, transport);

    let resolved = client
        .resolve_exact(&scoped_spec())
        .expect("stubbed scoped metadata should resolve")
        .resolved_package;

    assert_eq!(resolved.registry, registry);
    assert_eq!(
        resolved.tarball_url,
        "https://scope.registry.test/npm/@scope/create-example/-/create-example-1.2.3.tgz"
    );
}

#[test]
fn registry_maps_missing_package() {
    let client = NpmMetadataClient::public(StubTransport::new(vec![Ok(response(404, "{}"))]));

    assert_reason(client.resolve_exact(&unscoped_spec("1.2.3")), M1Reason::MissingPackage);
}

#[test]
fn registry_maps_missing_version() {
    let client = NpmMetadataClient::public(StubTransport::new(vec![Ok(response(200, successful_body()))]));

    assert_reason(client.resolve_exact(&unscoped_spec("9.9.9")), M1Reason::MissingVersion);
}

#[test]
fn registry_maps_transport_failure() {
    let client = NpmMetadataClient::public(StubTransport::new(vec![Err(RegistryTransportError::new(
        "network unavailable",
    ))]));

    assert_reason(client.resolve_exact(&unscoped_spec("1.2.3")), M1Reason::RegistryError);
}

#[test]
fn maps_invalid_json() {
    let client = NpmMetadataClient::public(StubTransport::new(vec![Ok(response(200, "not json"))]));

    assert_reason(client.resolve_exact(&unscoped_spec("1.2.3")), M1Reason::RegistryError);
}

#[test]
fn maps_invalid_dist_payload() {
    let client = NpmMetadataClient::public(StubTransport::new(vec![Ok(response(
        200,
        r#"{"versions":{"1.2.3":{"version":"1.2.3","dist":{}}}}"#,
    ))]));

    assert_reason(client.resolve_exact(&unscoped_spec("1.2.3")), M1Reason::RegistryError);
}

#[test]
fn maps_non_404_http_failure() {
    let client = NpmMetadataClient::public(StubTransport::new(vec![Ok(response(500, "{}"))]));

    assert_reason(client.resolve_exact(&unscoped_spec("1.2.3")), M1Reason::RegistryError);
}

#[test]
fn requests_encoded_metadata_url() {
    let transport = StubTransport::new(vec![Ok(response(200, successful_body()))]);
    let client = NpmMetadataClient::public(transport);

    let _ = client.resolve_exact(&scoped_spec());

    assert_eq!(
        client.transport().requested_url(),
        "https://registry.npmjs.org/%40scope%2Fcreate-example"
    );
}

#[test]
fn registry_evidence_records_dist_and_people() {
    let body = r#"{
        "maintainers": [{"name": "alice", "email": "a@example.test"}],
        "time": {"1.2.3": "2024-01-02T03:04:05.000Z"},
        "versions": {
            "1.2.3": {
                "version": "1.2.3",
                "license": "MIT",
                "repository": {"type": "git", "url": "git+https://example.test/repo.git"},
                "_npmUser": {"name": "bob"},
                "dist": {
                    "tarball": "https://registry.npmjs.org/create-example/-/create-example-1.2.3.tgz",
                    "integrity": "sha512-fixture"
                }
            }
        }
    }"#;
    let client = NpmMetadataClient::public(StubTransport::new(vec![Ok(response(200, body))]));

    let evidence = client
        .resolve_exact(&unscoped_spec("1.2.3"))
        .expect("metadata should resolve")
        .registry_evidence;

    assert_eq!(evidence.name, "create-example");
    assert_eq!(evidence.dist_integrity, "sha512-fixture");
    assert_eq!(evidence.publish_time.as_deref(), Some("2024-01-02T03:04:05.000Z"));
    assert_eq!(evidence.license.as_deref(), Some("MIT"));
    assert_eq!(evidence.maintainers.len(), 1);
    assert_eq!(evidence.maintainers[0].name.as_deref(), Some("alice"));
    assert_eq!(evidence.publisher.as_ref().and_then(|p| p.name.as_deref()), Some("bob"));
}
