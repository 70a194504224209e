//! The dependencies that come with a release of the server.
use crate::config::types::{OverlaybdDependencyConfig, VirtualizationMode};
use vstd::prelude::*;

verus! {

/// One version of a dependency, and where it comes from.
#[derive(Debug)]
pub struct ManifestDownload {
    pub version: String,
    /// The address, with placeholders for the version and the architecture.
    pub url: String,
}

/// A dependency that differs between the ways to virtualize.
#[derive(Debug)]
pub struct ManifestVirtualizationDownloads {
    pub kvm: ManifestDownload,
    pub pvm: ManifestDownload,
}

impl ManifestVirtualizationDownloads {
    /// The version for `mode`.
    pub open spec fn spec_for_mode(self, mode: VirtualizationMode) -> ManifestDownload {
        match mode {
            VirtualizationMode::Kvm => self.kvm,
            VirtualizationMode::Pvm => self.pvm,
        }
    }

    /// The version for `mode`.
    pub fn for_mode(&self, mode: VirtualizationMode) -> (r: &ManifestDownload)
        ensures
            *r == self.spec_for_mode(mode),
            mode is Kvm ==> *r == self.kvm,
            mode is Pvm ==> *r == self.pvm,
    {
        match mode {
            VirtualizationMode::Kvm => &self.kvm,
            VirtualizationMode::Pvm => &self.pvm,
        }
    }
}

/// All dependencies of a release.
#[derive(Debug)]
pub struct SetupDependencyManifest {
    pub firecracker: ManifestVirtualizationDownloads,
    pub kernel: ManifestVirtualizationDownloads,
    pub tools: ManifestDownload,
    pub overlaybd: OverlaybdDependencyConfig,
    pub regclient: ManifestDownload,
}

} // verus!
