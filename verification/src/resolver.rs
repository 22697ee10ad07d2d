//! End-to-end root artifact resolution: metadata, download, integrity.

use vstd::prelude::*;
use crate::contracts::{
    ArtifactIdentity, ArtifactIdentityView, Decision, M1Reason, PackageSpec, PackageSpecView,
    RegistrySourceView, ResolvedPackage, ResolvedPackageView,
};
use crate::download::{
    download_matches, download_model, is_absolute_http, TarballDownloadError, TarballDownloader, TarballHttpResponse,
    TarballTransport, TarballTransportError,
};
use crate::evidence::{RegistryEvidence, RegistryEvidenceView};
use crate::integrity::{verification_model, verify_artifact_integrity, ArtifactVerificationError};
use crate::registry::{
    metadata_url_of, response_model, resolution_view, NpmMetadataClient, RegistryHttpResponse,
    RegistryResolutionError, RegistryTransport, RegistryTransportError, ResolutionModel,
};

verus! {

/// Verified root artifact resolution result.
#[derive(Clone, Debug, PartialEq, Eq)]
pub struct VerifiedRootArtifact {
    /// Exact package metadata resolved from the registry.
    pub resolved_package: ResolvedPackage,
    /// Verified identity for the exact downloaded root artifact bytes.
    pub artifact_identity: ArtifactIdentity,
    /// Registry facts tied to the resolved exact version.
    pub registry_evidence: RegistryEvidence,
    /// Exact tarball bytes verified by `artifact_identity`.
    pub artifact_bytes: Vec<u8>,
}

/// Error returned by end-to-end root artifact resolution.
#[derive(Clone, Debug, PartialEq, Eq)]
pub struct RootArtifactResolutionError {
    /// Policy decision when the failure is a deny decision.
    pub decision: Option<Decision>,
    /// Stable reason for the failure.
    pub reason: M1Reason,
    /// Short diagnostic detail.
    pub detail: String,
}

impl RootArtifactResolutionError {
    /// Create a resolver error without a policy decision.
    pub fn inspection_error(reason: M1Reason, detail: &str) -> (r: Self)
        ensures
            r.decision is None,
            r.reason == reason,
            r.detail@ == detail@,
    {
        RootArtifactResolutionError { decision: None, reason, detail: detail.to_owned() }
    }

    /// Create a resolver error with an explicit policy decision.
    pub fn with_decision(decision: Decision, reason: M1Reason, detail: &str) -> (r: Self)
        ensures
            r.decision == Some(decision),
            r.reason == reason,
            r.detail@ == detail@,
    {
        RootArtifactResolutionError { decision: Some(decision), reason, detail: detail.to_owned() }
    }

    /// Preserve stable registry failure reasons.
    pub fn from_registry_error(error: RegistryResolutionError) -> (r: Self)
        ensures
            r.decision is None,
            r.reason == error.reason,
            r.detail == error.detail,
    {
        RootArtifactResolutionError { decision: None, reason: error.reason, detail: error.detail }
    }

    /// Preserve stable download failure reasons.
    pub fn from_download_error(error: TarballDownloadError) -> (r: Self)
        ensures
            r.decision is None,
            r.reason == error.reason,
            r.detail == error.detail,
    {
        RootArtifactResolutionError { decision: None, reason: error.reason, detail: error.detail }
    }

    /// Preserve integrity mismatch denial behavior.
    pub fn from_verification_error(error: ArtifactVerificationError) -> (r: Self)
        ensures
            r.decision == Some(error.decision),
            r.reason == error.reason,
            r.detail == error.detail,
    {
        RootArtifactResolutionError {
            decision: Some(error.decision),
            reason: error.reason,
            detail: error.detail,
        }
    }
}

/// Outcome of resolving a root artifact.
pub enum RootModel {
    Verified(ResolvedPackageView, ArtifactIdentityView, RegistryEvidenceView, Seq<u8>),
    Failed(Option<Decision>, M1Reason, Seq<char>),
}

pub open spec fn root_view(r: Result<VerifiedRootArtifact, RootArtifactResolutionError>) -> RootModel {
    match r {
        Ok(v) => RootModel::Verified(
            v.resolved_package@,
            v.artifact_identity@,
            v.registry_evidence@,
            v.artifact_bytes@,
        ),
        Err(e) => RootModel::Failed(e.decision, e.reason, e.detail@),
    }
}

/// Resolution for given registry and tarball transport outcomes: metadata
/// failures and download failures carry no decision; an integrity mismatch
/// is a deny.
pub open spec fn root_model(
    spec: PackageSpecView,
    registry: RegistrySourceView,
    metadata_response: Result<RegistryHttpResponse, RegistryTransportError>,
    tarball_response: Result<TarballHttpResponse, TarballTransportError>,
) -> RootModel {
    match response_model(spec, registry, metadata_response) {
        ResolutionModel::Failed(reason, detail) => RootModel::Failed(None, reason, detail),
        ResolutionModel::Resolved(package, evidence) => match download_model(
            package,
            Some(tarball_response),
        ) {
            Err(detail) => RootModel::Failed(None, M1Reason::RegistryError, detail),
            Ok(bytes) => match verification_model(
                package.name,
                package.version,
                bytes,
                package.integrity,
            ) {
                Err(detail) => RootModel::Failed(
                    Some(Decision::Deny),
                    M1Reason::IntegrityMismatch,
                    detail,
                ),
                Ok(identity) => RootModel::Verified(package, identity, evidence, bytes),
            },
        },
    }
}

/// The transport outcomes `m` and `t` are answers the transports may give:
/// `m` for the metadata URL of `spec`, and `t`, where the metadata resolves
/// to a package with an absolute HTTP(S) tarball URL, for that URL.
pub open spec fn transports_answered<M: RegistryTransport, D: TarballTransport>(
    metadata_transport: M,
    tarball_transport: D,
    spec: PackageSpecView,
    registry: RegistrySourceView,
    m: Result<RegistryHttpResponse, RegistryTransportError>,
    t: Result<TarballHttpResponse, TarballTransportError>,
) -> bool {
    &&& metadata_transport.answers(metadata_url_of(registry, spec), m)
    &&& match response_model(spec, registry, m) {
        ResolutionModel::Resolved(package, _) => is_absolute_http(package.tarball_url)
            ==> tarball_transport.answers(package.tarball_url, t),
        ResolutionModel::Failed(_, _) => true,
    }
}

/// Resolver that composes metadata, download, and integrity verification.
#[derive(Clone, Debug)]
pub struct RootArtifactResolver<M, D> {
    metadata_client: NpmMetadataClient<M>,
    tarball_downloader: TarballDownloader<D>,
}

impl<M: RegistryTransport, D: TarballTransport> RootArtifactResolver<M, D> {
    /// The registry metadata is resolved against.
    pub closed spec fn registry_model(&self) -> RegistrySourceView {
        self.metadata_client.registry_model()
    }

    /// The transport metadata is fetched through.
    pub closed spec fn metadata_transport(&self) -> M {
        self.metadata_client.held_transport()
    }

    /// The transport tarballs are fetched through.
    pub closed spec fn tarball_transport(&self) -> D {
        self.tarball_downloader.held_transport()
    }

    /// `r` is the resolution of `spec` for some answers the transports may
    /// give for the URLs asked of them.
    pub open spec fn explains(&self, spec: PackageSpecView, r: Result<VerifiedRootArtifact, RootArtifactResolutionError>) -> bool {
        exists|
            m: Result<RegistryHttpResponse, RegistryTransportError>,
            t: Result<TarballHttpResponse, TarballTransportError>,
        |
            #[trigger] root_model(spec, self.registry_model(), m, t) == root_view(r) && transports_answered(
                self.metadata_transport(),
                self.tarball_transport(),
                spec,
                self.registry_model(),
                m,
                t,
            )
    }

    /// Create a root artifact resolver from its components.
    pub fn new(metadata_client: NpmMetadataClient<M>, tarball_downloader: TarballDownloader<D>) -> (r:
        Self)
        ensures
            r.registry_model() == metadata_client.registry_model(),
            r.metadata_transport() == metadata_client.held_transport(),
            r.tarball_transport() == tarball_downloader.held_transport(),
    {
        RootArtifactResolver { metadata_client, tarball_downloader }
    }

    /// Resolve, download, and verify the root artifact for a supported spec.
    pub fn resolve(&self, package_spec: &PackageSpec) -> (r: Result<
        VerifiedRootArtifact,
        RootArtifactResolutionError,
    >)
        ensures
            self.explains(package_spec@, r),
    {
        let resolved = self.metadata_client.resolve_exact(package_spec);
        let ghost m = choose|m: Result<RegistryHttpResponse, RegistryTransportError>|
            self.metadata_client.held_transport().answers(
                metadata_url_of(self.metadata_client.registry_model(), package_spec@),
                m,
            ) && #[trigger] response_model(package_spec@, self.metadata_client.registry_model(), m)
                == resolution_view(resolved);
        let resolved = match resolved {
            Ok(r) => r,
            Err(e) => {
                let r = Err(RootArtifactResolutionError::from_registry_error(e));
                let ghost t: Result<TarballHttpResponse, TarballTransportError> = Err(
                    TarballTransportError { message: e.detail },
                );
                assert(root_model(package_spec@, self.registry_model(), m, t) == root_view(r));
                return r;
            },
        };
        let resolved_package = resolved.resolved_package;
        let downloaded = self.tarball_downloader.download(&resolved_package);
        let ghost t = choose|t: Result<TarballHttpResponse, TarballTransportError>|
            #[trigger] download_matches(downloaded, resolved_package@, t) && (is_absolute_http(
                resolved_package.tarball_url@,
            ) ==> self.tarball_downloader.held_transport().answers(resolved_package.tarball_url@, t));
        let artifact_bytes = match downloaded {
            Ok(a) => a,
            Err(e) => {
                let r = Err(RootArtifactResolutionError::from_download_error(e));
                assert(root_model(package_spec@, self.registry_model(), m, t) == root_view(r));
                return r;
            },
        };
        let artifact_identity = match verify_artifact_integrity(
            &artifact_bytes,
            resolved_package.integrity.as_str(),
        ) {
            Ok(id) => id,
            Err(e) => {
                let r = Err(RootArtifactResolutionError::from_verification_error(e));
                assert(root_model(package_spec@, self.registry_model(), m, t) == root_view(r));
                return r;
            },
        };
        let r = Ok(
            VerifiedRootArtifact {
                resolved_package,
                artifact_identity,
                registry_evidence: resolved.registry_evidence,
                artifact_bytes: artifact_bytes.bytes,
            },
        );
        assert(root_model(package_spec@, self.registry_model(), m, t) == root_view(r));
        r
    }
}

} // verus!
