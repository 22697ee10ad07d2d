use safe_npx::contracts::{M1Reason, RegistrySource, ResolvedPackage};
use safe_npx::download::{
    ArtifactBytes, TarballDownloadError, TarballDownloader, TarballHttpResponse, TarballTransport,
    TarballTransportError,
};
use std::cell::{Cell, RefCell};

#[derive(Debug)]
struct StubTarballTransport {
    response: RefCell<Option<Result<TarballHttpResponse, TarballTransportError>>>,
    requested_urls: RefCell<Vec<String>>,
    package_manager_calls: Cell<usize>,
    extraction_calls: Cell<usize>,
    binary_calls: Cell<usize>,
    lifecycle_calls: Cell<usize>,
    dependency_script_calls: Cell<usize>,
}

impl StubTarballTransport {
    fn new(response: Result<TarballHttpResponse, TarballTransportError>) -> Self {
        Self {
            response: RefCell::new(Some(response)),
            requested_urls: RefCell::new(Vec::new()),
            package_manager_calls: Cell::new(0),
            extraction_calls: Cell::new(0),
            binary_calls: Cell::new(0),
            lifecycle_calls: Cell::new(0),
            dependency_script_calls: Cell::new(0),
        }
    }

    fn requested_url(&self) -> String {
        self.requested_urls
            .borrow()
            .first()
            .expect("stub should record a request")
            .clone()
    }

    fn execution_side_effects(&self) -> [usize; 5] {
        [
            self.package_manager_calls.get(),
            self.extraction_calls.get(),
            self.binary_calls.get(),
            self.lifecycle_calls.get(),
            self.dependency_script_calls.get(),
        ]
    }
}

impl TarballTransport for StubTarballTransport {
    fn get_bytes(&self, url: &str) -> Result<TarballHttpResponse, TarballTransportError> {
        self.requested_urls.borrow_mut().push(url.to_string());
        self.response
            .borrow_mut()
            .take()
            .expect("stub response should be present")
    }
}

fn response(status: u16, bytes: Vec<u8>) -> TarballHttpResponse {
    TarballHttpResponse { status, bytes }
}

fn resolved_package() -> ResolvedPackage {
    ResolvedPackage {
        name: "create-example".to_string(),
        version: "1.2.3".to_string(),
        registry: RegistrySource {
            url: "https://registry.npmjs.org/".to_string(),
            scope: None,
        },
        tarball_url: tarball_url(),
        integrity: "sha512-fixture".to_string(),
    }
}

fn tarball_url() -> String {
    "https://registry.npmjs.org/create-example/-/create-example-1.2.3.tgz".to_string()
}

fn assert_reason(result: Result<ArtifactBytes, TarballDownloadError>, expected_reason: M1Reason) {
    let error = result.expect_err("download should fail");

    assert_eq!(error.reason, expected_reason);
}

#[test]
fn downloads_tarball_bytes_without_mutation() {
    let downloader =
        TarballDownloader::new(StubTarballTransport::new(Ok(response(200, b"fixture-tarball".to_vec()))));
    let resolved_package = resolved_package();

    let artifact = downloader
        .download(&resolved_package)
        .expect("stubbed tarball should download");

    assert_eq!(artifact.name, "create-example");
    assert_eq!(artifact.version, "1.2.3");
    assert_eq!(artifact.tarball_url, resolved_package.tarball_url);
    assert_eq!(artifact.bytes, b"fixture-tarball");
}

#[test]
fn download_records_zero_execution_side_effects() {
    let transport = StubTarballTransport::new(Ok(response(200, b"bytes".to_vec())));
    let downloader = TarballDownloader::new(transport);

    let _ = downloader.download(&resolved_package());

    assert_eq!(downloader.transport().requested_url(), tarball_url());
    assert_eq!(downloader.transport().execution_side_effects(), [0, 0, 0, 0, 0]);
}

#[test]
fn rejects_invalid_tarball_url() {
    let transport = StubTarballTransport::new(Ok(response(200, b"bytes".to_vec())));
    let downloader = TarballDownloader::new(transport);
    let mut resolved_package = resolved_package();
    resolved_package.tarball_url = "file:///tmp/package.tgz".to_string();

    assert_reason(downloader.download(&resolved_package), M1Reason::RegistryError);
    assert!(downloader.transport().requested_urls.borrow().is_empty());
}

#[test]
fn download_maps_transport_failure() {
    let downloader = TarballDownloader::new(StubTarballTransport::new(Err(
        TarballTransportError::new("network unavailable"),
    )));

    assert_reason(downloader.download(&resolved_package()), M1Reason::RegistryError);
}

#[test]
fn maps_http_failure() {
    let downloader = TarballDownloader::new(StubTarballTransport::new(Ok(response(500, Vec::new()))));

    assert_reason(downloader.download(&resolved_package()), M1Reason::RegistryError);
}

#[test]
fn maps_empty_body() {
    let downloader = TarballDownloader::new(StubTarballTransport::new(Ok(response(200, Vec::new()))));

    assert_reason(downloader.download(&resolved_package()), M1Reason::RegistryError);
}
