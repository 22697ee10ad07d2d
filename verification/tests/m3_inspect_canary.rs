use base64::prelude::{Engine as _, BASE64_STANDARD};
use flate2::write::GzEncoder;
use flate2::Compression;
use safe_npx::authority_context::AmbientPaths;
use safe_npx::canary::{canary_fixtures, CanaryFixture, CanaryTrapKind};
use safe_npx::cli::Cli;
use safe_npx::contracts::{Decision, SourceContext};
use safe_npx::download::{TarballDownloader, TarballHttpResponse, TarballTransport, TarballTransportError};
use safe_npx::evidence::M1Evidence;
use safe_npx::registry::{NpmMetadataClient, RegistryHttpResponse, RegistryTransport, RegistryTransportError};
use safe_npx::report::{build_report_with_resolver, render_report};
use safe_npx::resolver::RootArtifactResolver;
use sha2::{Digest, Sha512};
use std::cell::RefCell;
use std::path::Path;
use tar::{Builder, Header};

struct StubRegistryTransport {
    responses: RefCell<Vec<Result<RegistryHttpResponse, RegistryTransportError>>>,
}

impl RegistryTransport for StubRegistryTransport {
    fn get(&self, _url: &str) -> Result<RegistryHttpResponse, RegistryTransportError> {
        self.responses.borrow_mut().remove(0)
    }
}

struct StubTarballTransport {
    responses: RefCell<Vec<Result<TarballHttpResponse, TarballTransportError>>>,
}

impl TarballTransport for StubTarballTransport {
    fn get_bytes(&self, _url: &str) -> Result<TarballHttpResponse, TarballTransportError> {
        self.responses.borrow_mut().remove(0)
    }
}

#[derive(Clone, Copy, Debug)]
enum RenderMode {
    Human,
    Json,
}

fn inspect_cli(mode: RenderMode) -> Cli {
    Cli {
        json: matches!(mode, RenderMode::Json),
        dry_run: false,
        decision: Decision::Ask,
        m2_refusal: None,
        source_context: SourceContext::Unknown,
        command: vec!["inspect".to_string(), "create-example@1.2.3".to_string()],
    }
}

fn ambient() -> AmbientPaths {
    AmbientPaths { cwd: Some("/workspace/project".to_string()), home: None, temp_dir: "/tmp".to_string() }
}

/// A sentinel root that nothing creates.
fn sentinel_root() -> String {
    "/nonexistent/safe-npx-m3-canary-root".to_string()
}

#[test]
fn inspect_human_output_leaves_canary_sentinels_absent() {
    assert_inspect_output_leaves_canary_sentinels_absent(RenderMode::Human);
}

#[test]
fn inspect_json_output_leaves_canary_sentinels_absent() {
    assert_inspect_output_leaves_canary_sentinels_absent(RenderMode::Json);
}

#[test]
fn inspect_failure_output_leaves_canary_sentinels_absent() {
    assert_inspect_failure_leaves_canary_sentinels_absent(RenderMode::Human);
    assert_inspect_failure_leaves_canary_sentinels_absent(RenderMode::Json);
}

fn assert_inspect_output_leaves_canary_sentinels_absent(render_mode: RenderMode) {
    let root = sentinel_root();
    for fixture in canary_fixtures() {
        let sentinel = fixture.sentinel_path(&root);
        let tarball = canary_package_tarball(&fixture, &sentinel);
        let cli = inspect_cli(render_mode);
        let report = build_report_with_resolver(&cli, &verified_resolver(&tarball), &ambient());
        let output = render_report(&cli, &report, None);

        assert!(
            matches!(report.m1, M1Evidence::Verified { .. }),
            "{} {:?} should inspect successfully before execution checks",
            fixture.id,
            fixture.trap_kind
        );
        assert!(
            !Path::new(&sentinel).exists(),
            "{} {:?} created sentinel {:?} during {:?} inspect output",
            fixture.id,
            fixture.trap_kind,
            sentinel,
            render_mode
        );
        assert!(output.contains("m3_inspect"), "{} {:?} should use the explicit inspect pipeline", fixture.id, fixture.trap_kind);
    }
}

fn assert_inspect_failure_leaves_canary_sentinels_absent(render_mode: RenderMode) {
    let root = sentinel_root();
    for fixture in canary_fixtures() {
        let sentinel = fixture.sentinel_path(&root);
        let tarball = canary_package_tarball(&fixture, &sentinel);
        let cli = inspect_cli(render_mode);
        let report = build_report_with_resolver(&cli, &resolver_with_integrity(&tarball, "sha512-wrong"), &ambient());
        let output = render_report(&cli, &report, None);

        assert!(
            matches!(report.m1, M1Evidence::Failed { .. }),
            "{} {:?} should fail before any package-code path",
            fixture.id,
            fixture.trap_kind
        );
        assert!(
            !Path::new(&sentinel).exists(),
            "{} {:?} created sentinel {:?} during {:?} inspect failure",
            fixture.id,
            fixture.trap_kind,
            sentinel,
            render_mode
        );
        assert!(
            output.contains("integrity_mismatch") || output.contains("IntegrityMismatch"),
            "{} {:?} should render the integrity failure",
            fixture.id,
            fixture.trap_kind
        );
    }
}

fn verified_resolver(bytes: &[u8]) -> RootArtifactResolver<StubRegistryTransport, StubTarballTransport> {
    resolver_with_integrity(bytes, &integrity_for(bytes))
}

fn resolver_with_integrity(bytes: &[u8], integrity: &str) -> RootArtifactResolver<StubRegistryTransport, StubTarballTransport> {
    RootArtifactResolver::new(
        NpmMetadataClient::public(StubRegistryTransport {
            responses: RefCell::new(vec![Ok(RegistryHttpResponse { status: 200, body: metadata_body(integrity) })]),
        }),
        TarballDownloader::new(StubTarballTransport {
            responses: RefCell::new(vec![Ok(TarballHttpResponse { status: 200, bytes: bytes.to_vec() })]),
        }),
    )
}

fn metadata_body(integrity: &str) -> String {
    format!(
        r#"{{
            "versions": {{
                "1.2.3": {{
                    "version": "1.2.3",
                    "dist": {{
                        "tarball": "https://registry.npmjs.org/create-example/-/create-example-1.2.3.tgz",
                        "integrity": "{}"
                    }}
                }}
            }}
        }}"#,
        integrity
    )
}

fn integrity_for(bytes: &[u8]) -> String {
    format!("sha512-{}", BASE64_STANDARD.encode(Sha512::digest(bytes)))
}

fn canary_package_tarball(fixture: &CanaryFixture, sentinel: &str) -> Vec<u8> {
    let mut gzip = GzEncoder::new(Vec::new(), Compression::default());
    {
        let mut builder = Builder::new(&mut gzip);
        append_file(&mut builder, "package/package.json", package_json_for(fixture).as_bytes());
        append_file(&mut builder, trap_file_path(fixture), trap_payload(sentinel).as_bytes());
        if fixture.trap_kind == CanaryTrapKind::DependencyLifecycle {
            append_file(
                &mut builder,
                "package/node_modules/canary-dep/package.json",
                dependency_package_json().as_bytes(),
            );
        }
        builder.finish().expect("tar builder should finish");
    }
    gzip.finish().expect("gzip encoder should finish")
}

fn package_json_for(fixture: &CanaryFixture) -> String {
    match fixture.trap_kind {
        CanaryTrapKind::RootBinary => {
            r#"{"name":"create-example","version":"1.2.3","bin":{"create-example":"bin/root-binary.js"}}"#.to_string()
        }
        CanaryTrapKind::RootPreinstall => {
            r#"{"name":"create-example","version":"1.2.3","scripts":{"preinstall":"node traps/root-preinstall.js"}}"#.to_string()
        }
        CanaryTrapKind::RootInstall => {
            r#"{"name":"create-example","version":"1.2.3","scripts":{"install":"node traps/root-install.js"}}"#.to_string()
        }
        CanaryTrapKind::RootPostinstall => {
            r#"{"name":"create-example","version":"1.2.3","scripts":{"postinstall":"node traps/root-postinstall.js"}}"#.to_string()
        }
        CanaryTrapKind::DependencyLifecycle => {
            r#"{"name":"create-example","version":"1.2.3","dependencies":{"canary-dep":"1.0.0"}}"#.to_string()
        }
        CanaryTrapKind::GeneratedShim => {
            r#"{"name":"create-example","version":"1.2.3","bin":{"create-example":"node_modules/.bin/create-example"}}"#.to_string()
        }
        CanaryTrapKind::NetworkAttempt => {
            r#"{"name":"create-example","version":"1.2.3","scripts":{"postinstall":"node traps/network-attempt.js"}}"#.to_string()
        }
    }
}

fn dependency_package_json() -> String {
    r#"{"name":"canary-dep","version":"1.0.0","scripts":{"postinstall":"node postinstall.js"}}"#.to_string()
}

fn trap_file_path(fixture: &CanaryFixture) -> &'static str {
    match fixture.trap_kind {
        CanaryTrapKind::RootBinary => "package/bin/root-binary.js",
        CanaryTrapKind::RootPreinstall => "package/traps/root-preinstall.js",
        CanaryTrapKind::RootInstall => "package/traps/root-install.js",
        CanaryTrapKind::RootPostinstall => "package/traps/root-postinstall.js",
        CanaryTrapKind::DependencyLifecycle => "package/node_modules/canary-dep/postinstall.js",
        CanaryTrapKind::GeneratedShim => "package/node_modules/.bin/create-example",
        CanaryTrapKind::NetworkAttempt => "package/traps/network-attempt.js",
    }
}

fn trap_payload(sentinel: &str) -> String {
    let sentinel_json = serde_json::to_string(sentinel).expect("path should serialize");
    format!("require('fs').writeFileSync({sentinel_json}, 'trap ran');\n")
}

fn append_file(builder: &mut Builder<&mut GzEncoder<Vec<u8>>>, path: &str, bytes: &[u8]) {
    let mut header = Header::new_gnu();
    header.set_size(bytes.len() as u64);
    header.set_mode(0o755);
    header.set_cksum();
    builder.append_data(&mut header, path, bytes).expect("fixture file should append");
}
