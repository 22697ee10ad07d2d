//! Root tarball byte download without package execution.

use vstd::prelude::*;
use crate::contracts::{M1Reason, ResolvedPackage, ResolvedPackageView};
use crate::numbers::{decimal, u64_to_decimal};
use crate::text::{has_prefix, starts_with};

verus! {

/// HTTP response returned by a tarball transport.
#[derive(Clone, Debug, PartialEq, Eq)]
pub struct TarballHttpResponse {
    /// HTTP status code.
    pub status: u16,
    /// Raw tarball bytes.
    pub bytes: Vec<u8>,
}

/// Transport-level error before tarball bytes are available.
#[derive(Clone, Debug, PartialEq, Eq)]
pub struct TarballTransportError {
    /// Transport error detail.
    pub message: String,
}

impl TarballTransportError {
    /// Create a transport error from a message.
    pub fn new(message: &str) -> (r: Self)
        ensures
            r.message@ == message@,
    {
        TarballTransportError { message: message.to_owned() }
    }
}

/// Byte-fetch boundary for tarball downloads, implemented by callers.
pub trait TarballTransport {
    /// Whether `response` is an answer this transport may give for `url`;
    /// a transport that does not say so may give any.
    open spec fn answers(&self, url: Seq<char>, response: Result<TarballHttpResponse, TarballTransportError>) -> bool {
        true
    }

    /// Fetch one tarball URL as bytes.
    fn get_bytes(&self, url: &str) -> (r: Result<TarballHttpResponse, TarballTransportError>)
        ensures
            self.answers(url@, r),
    ;
}

/// Downloaded artifact bytes ready for integrity verification.
#[derive(Clone, Debug, PartialEq, Eq)]
pub struct ArtifactBytes {
    /// Package name, including scope when present.
    pub name: String,
    /// Exact package version.
    pub version: String,
    /// Source tarball URL used to fetch these bytes.
    pub tarball_url: String,
    /// Raw downloaded bytes.
    pub bytes: Vec<u8>,
}

/// Error returned by tarball download.
#[derive(Clone, Debug, PartialEq, Eq)]
pub struct TarballDownloadError {
    /// Stable reason for this error.
    pub reason: M1Reason,
    /// Short diagnostic detail.
    pub detail: String,
}

impl TarballDownloadError {
    /// Create a tarball download error.
    pub fn new(reason: M1Reason, detail: &str) -> (r: Self)
        ensures
            r.reason == reason,
            r.detail@ == detail@,
    {
        TarballDownloadError { reason, detail: detail.to_owned() }
    }
}

/// Client that downloads root tarball bytes for resolved packages.
#[derive(Clone, Debug)]
pub struct TarballDownloader<T> {
    transport: T,
}

/// Absolute HTTP or HTTPS URL.
pub open spec fn is_absolute_http(url: Seq<char>) -> bool {
    has_prefix(url, "https://"@) || has_prefix(url, "http://"@)
}

/// Outcome of a download: the bytes, or the failure detail (the reason is
/// always a registry error).
pub open spec fn download_model(
    package: ResolvedPackageView,
    response: Option<Result<TarballHttpResponse, TarballTransportError>>,
) -> Result<Seq<u8>, Seq<char>> {
    if !is_absolute_http(package.tarball_url) {
        Err("tarball URL must be absolute HTTP(S)"@)
    } else {
        match response {
            None => Err(Seq::empty()),
            Some(Err(e)) => Err(e.message@),
            Some(Ok(r)) => if !(200 <= r.status <= 299) {
                Err("tarball download returned HTTP "@ + decimal(r.status as nat))
            } else if r.bytes@.len() == 0 {
                Err("tarball download returned empty bytes"@)
            } else {
                Ok(r.bytes@)
            },
        }
    }
}

/// A download result agrees with the model for one transport outcome.
pub open spec fn download_matches(
    r: Result<ArtifactBytes, TarballDownloadError>,
    package: ResolvedPackageView,
    response: Result<TarballHttpResponse, TarballTransportError>,
) -> bool {
    match (r, download_model(package, Some(response))) {
        (Ok(a), Ok(b)) => a.bytes@ == b && a.name@ == package.name && a.version@ == package.version
            && a.tarball_url@ == package.tarball_url,
        (Err(e), Err(d)) => e.reason == M1Reason::RegistryError && e.detail@ == d,
        _ => false,
    }
}

/// Return true when a URL is absolute HTTP or HTTPS.
pub fn is_absolute_http_url(url: &str) -> (r: bool)
    ensures
        r == is_absolute_http(url@),
{
    starts_with(url, "https://") || starts_with(url, "http://")
}

/// Interpret one transport outcome for a resolved package.
pub fn download_from_response(
    resolved_package: &ResolvedPackage,
    response: Result<TarballHttpResponse, TarballTransportError>,
) -> (r: Result<ArtifactBytes, TarballDownloadError>)
    requires
        is_absolute_http(resolved_package.tarball_url@),
    ensures
        download_matches(r, resolved_package@, response),
{
    let response = match response {
        Ok(r) => r,
        Err(error) => {
            return Err(TarballDownloadError { reason: M1Reason::RegistryError, detail: error.message });
        },
    };
    if !(200 <= response.status && response.status <= 299) {
        let mut detail = "tarball download returned HTTP ".to_owned();
        let code = u64_to_decimal(response.status as u64);
        detail.append(code.as_str());
        return Err(TarballDownloadError { reason: M1Reason::RegistryError, detail });
    }
    if response.bytes.len() == 0 {
        return Err(
            TarballDownloadError::new(
                M1Reason::RegistryError,
                "tarball download returned empty bytes",
            ),
        );
    }
    Ok(
        ArtifactBytes {
            name: resolved_package.name.clone(),
            version: resolved_package.version.clone(),
            tarball_url: resolved_package.tarball_url.clone(),
            bytes: response.bytes,
        },
    )
}

impl<T: TarballTransport> TarballDownloader<T> {
    /// The transport this downloader fetches through.
    pub closed spec fn held_transport(&self) -> T {
        self.transport
    }

    /// Create a tarball downloader from a byte transport.
    pub fn new(transport: T) -> (r: Self)
        ensures
            r.held_transport() == transport,
    {
        TarballDownloader { transport }
    }

    /// The transport this downloader fetches through.
    pub fn transport(&self) -> (r: &T)
        ensures
            *r == self.held_transport(),
    {
        &self.transport
    }

    /// Download root tarball bytes without extraction or execution; a
    /// non-HTTP(S) URL is refused before the transport is called, any other
    /// is asked of the transport, whose answer decides the result.
    pub fn download(&self, resolved_package: &ResolvedPackage) -> (r: Result<
        ArtifactBytes,
        TarballDownloadError,
    >)
        ensures
            !is_absolute_http(resolved_package.tarball_url@) ==> (r matches Err(e) && e.reason
                == M1Reason::RegistryError && e.detail@ == "tarball URL must be absolute HTTP(S)"@),
            exists|response: Result<TarballHttpResponse, TarballTransportError>|
                #[trigger] download_matches(r, resolved_package@, response) && (is_absolute_http(
                    resolved_package.tarball_url@,
                ) ==> self.held_transport().answers(resolved_package.tarball_url@, response)),
    {
        if !is_absolute_http_url(resolved_package.tarball_url.as_str()) {
            let err = TarballDownloadError::new(
                M1Reason::RegistryError,
                "tarball URL must be absolute HTTP(S)",
            );
            let ghost witness: Result<TarballHttpResponse, TarballTransportError> = Err(
                TarballTransportError { message: err.detail },
            );
            assert(download_model(resolved_package@, Some(witness)) == Err::<Seq<u8>, Seq<char>>(
                "tarball URL must be absolute HTTP(S)"@,
            ));
            let r = Err(err);
            assert(download_matches(r, resolved_package@, witness));
            return r;
        }
        let response = self.transport.get_bytes(resolved_package.tarball_url.as_str());
        let ghost resp = response;
        let r = download_from_response(resolved_package, response);
        assert(download_matches(r, resolved_package@, resp));
        r
    }
}

} // verus!
