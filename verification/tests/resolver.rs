use base64::prelude::{Engine as _, BASE64_STANDARD};
use safe_npx::contracts::{Decision, M1Reason, PackageSpec};
use safe_npx::download::{TarballDownloader, TarballHttpResponse, TarballTransport, TarballTransportError};
use safe_npx::registry::{NpmMetadataClient, RegistryHttpResponse, RegistryTransport, RegistryTransportError};
use safe_npx::resolver::{RootArtifactResolutionError, RootArtifactResolver, VerifiedRootArtifact};
use sha2::{Digest, Sha512};
use std::cell::RefCell;

struct StubRegistryTransport {
    responses: RefCell<Vec<Result<RegistryHttpResponse, RegistryTransportError>>>,
}

impl RegistryTransport for StubRegistryTransport {
    fn get(&self, _url: &str) -> Result<RegistryHttpResponse, RegistryTransportError> {
        self.responses.borrow_mut().remove(0)
    }
}

struct StubTarballTransport {
    responses: RefCell<Vec<Result<TarballHttpResponse, TarballTransportError>>>,
}

impl TarballTransport for StubTarballTransport {
    fn get_bytes(&self, _url: &str) -> Result<TarballHttpResponse, TarballTransportError> {
        self.responses.borrow_mut().remove(0)
    }
}

fn resolver_with(
    registry_responses: Vec<Result<RegistryHttpResponse, RegistryTransportError>>,
    tarball_responses: Vec<Result<TarballHttpResponse, TarballTransportError>>,
) -> RootArtifactResolver<StubRegistryTransport, StubTarballTransport> {
    RootArtifactResolver::new(
        NpmMetadataClient::public(StubRegistryTransport { responses: RefCell::new(registry_responses) }),
        TarballDownloader::new(StubTarballTransport { responses: RefCell::new(tarball_responses) }),
    )
}

fn package_spec() -> PackageSpec {
    PackageSpec::exact("create-example@1.2.3", "create-example", "1.2.3", None)
}

fn registry_response(status: u16, body: &str) -> RegistryHttpResponse {
    RegistryHttpResponse { status, body: body.to_string() }
}

fn tarball_response(status: u16, bytes: Vec<u8>) -> TarballHttpResponse {
    TarballHttpResponse { status, bytes }
}

fn metadata_body(integrity: &str) -> String {
    format!(
        r#"{{
            "name": "create-example",
            "versions": {{
                "1.2.3": {{
                    "name": "create-example",
                    "version": "1.2.3",
                    "dist": {{
                        "tarball": "{}",
                        "integrity": "{}"
                    }}
                }}
            }}
        }}"#,
        tarball_url(),
        integrity
    )
}

fn tarball_url() -> String {
    "https://registry.npmjs.org/create-example/-/create-example-1.2.3.tgz".to_string()
}

fn integrity_for(bytes: &[u8]) -> String {
    format!("sha512-{}", BASE64_STANDARD.encode(Sha512::digest(bytes)))
}

fn hex_sha512(bytes: &[u8]) -> String {
    Sha512::digest(bytes).iter().map(|byte| format!("{byte:02x}")).collect::<Vec<_>>().join("")
}

fn assert_failure_reason(
    result: Result<VerifiedRootArtifact, RootArtifactResolutionError>,
    expected_reason: M1Reason,
    expected_decision: Option<Decision>,
) {
    let error = result.expect_err("resolution should fail");

    assert_eq!(error.reason, expected_reason);
    assert_eq!(error.decision, expected_decision);
}

#[test]
fn resolves_verified_root_artifact() {
    let bytes = b"fixture-tarball".to_vec();
    let resolver = resolver_with(
        vec![Ok(registry_response(200, &metadata_body(&integrity_for(&bytes))))],
        vec![Ok(tarball_response(200, bytes.clone()))],
    );

    let verified = resolver.resolve(&package_spec()).expect("root artifact should verify");

    assert_eq!(verified.resolved_package.name, "create-example");
    assert_eq!(verified.artifact_identity.digest, hex_sha512(&bytes));
    assert_eq!(verified.artifact_bytes, bytes);
}

#[test]
fn resolver_maps_missing_package() {
    let resolver = resolver_with(vec![Ok(registry_response(404, "{}"))], Vec::new());

    assert_failure_reason(resolver.resolve(&package_spec()), M1Reason::MissingPackage, None);
}

#[test]
fn resolver_maps_missing_version() {
    let resolver = resolver_with(
        vec![Ok(registry_response(
            200,
            r#"{"versions":{"9.9.9":{"version":"9.9.9","dist":{"tarball":"https://registry.npmjs.org/create-example/-/create-example-9.9.9.tgz","integrity":"sha512-fixture"}}}}"#,
        ))],
        Vec::new(),
    );

    assert_failure_reason(resolver.resolve(&package_spec()), M1Reason::MissingVersion, None);
}

#[test]
fn maps_registry_failure() {
    let resolver = resolver_with(vec![Err(RegistryTransportError::new("registry unavailable"))], Vec::new());

    assert_failure_reason(resolver.resolve(&package_spec()), M1Reason::RegistryError, None);
}

#[test]
fn maps_download_failure() {
    let bytes = b"fixture-tarball".to_vec();
    let resolver = resolver_with(
        vec![Ok(registry_response(200, &metadata_body(&integrity_for(&bytes))))],
        vec![Err(TarballTransportError::new("download unavailable"))],
    );

    assert_failure_reason(resolver.resolve(&package_spec()), M1Reason::RegistryError, None);
}

#[test]
fn maps_integrity_mismatch_to_deny() {
    let resolver = resolver_with(
        vec![Ok(registry_response(200, &metadata_body(&integrity_for(b"different-bytes"))))],
        vec![Ok(tarball_response(200, b"fixture-tarball".to_vec()))],
    );

    assert_failure_reason(resolver.resolve(&package_spec()), M1Reason::IntegrityMismatch, Some(Decision::Deny));
}

#[test]
fn resolution_errors_carry_an_explicit_decision() {
    let error = RootArtifactResolutionError::with_decision(Decision::Deny, M1Reason::IntegrityMismatch, "bytes changed");
    assert_eq!(error.decision, Some(Decision::Deny));
    assert_eq!(error.reason, M1Reason::IntegrityMismatch);
    assert_eq!(error.detail, "bytes changed");
}
