//! Inspect boundary: only a supported package spec may reach the hooks that
//! touch the network.

use vstd::prelude::*;
use crate::contracts::{CommandIntent, PackageSpec, PackageSpecParse};

verus! {

/// One call of a network-capable hook, with the spec it was given.
#[derive(Clone, Debug, PartialEq, Eq)]
pub enum ProbeCall {
    /// A registry metadata lookup.
    ResolveMetadata(PackageSpec),
    /// A tarball download.
    DownloadTarball(PackageSpec),
}

/// Network-capable hooks used after parser classification, implemented by
/// callers. A probe that keeps a record of its calls (`records_calls`) adds
/// each hook call to `calls` as it is made.
pub trait NetworkProbe {
    /// Whether this probe keeps a record of its calls; one that does not say
    /// so keeps none.
    open spec fn records_calls(&self) -> bool {
        false
    }

    /// The hook calls received so far, in order, where a record is kept.
    open spec fn calls(&self) -> Seq<ProbeCall> {
        Seq::empty()
    }

    /// Record or perform a registry metadata lookup for a supported spec.
    fn resolve_metadata(&mut self, package_spec: &PackageSpec)
        ensures
            final(self).records_calls() == old(self).records_calls(),
            old(self).records_calls() ==> final(self).calls() == old(self).calls().push(
                ProbeCall::ResolveMetadata(*package_spec),
            ),
    ;

    /// Record or perform a tarball download for a supported spec.
    fn download_tarball(&mut self, package_spec: &PackageSpec)
        ensures
            final(self).records_calls() == old(self).records_calls(),
            old(self).records_calls() ==> final(self).calls() == old(self).calls().push(
                ProbeCall::DownloadTarball(*package_spec),
            ),
    ;
}

/// Inspect parsed intent; the hooks run, metadata then tarball, exactly
/// when the spec is supported, and an unsupported or malformed spec leaves
/// the probe untouched.
pub fn inspect_with_probe<P: NetworkProbe>(intent: &CommandIntent, probe: &mut P)
    ensures
        match intent.package_spec {
            PackageSpecParse::Supported(s) => final(probe).records_calls() == old(probe).records_calls() && (old(
                probe,
            ).records_calls() ==> final(probe).calls() == old(probe).calls().push(
                ProbeCall::ResolveMetadata(s),
            ).push(ProbeCall::DownloadTarball(s))),
            _ => *final(probe) == *old(probe),
        },
{
    match &intent.package_spec {
        PackageSpecParse::Supported(package_spec) => {
            probe.resolve_metadata(package_spec);
            probe.download_tarball(package_spec);
        },
        _ => {},
    }
}

} // verus!
