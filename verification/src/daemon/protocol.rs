//! What clients ask of the daemon and what it answers.
use crate::fs_path::FsPath;
use vstd::prelude::*;

verus! {

/// Whether a device has one holder or several.
#[derive(Debug, Clone, Copy, PartialEq, Eq, Structural)]
pub enum AccessMode {
    Exclusive,
    Shared,
}

/// How the writable layer of an image is stored.
#[derive(Debug, Clone, Copy, PartialEq, Eq, Structural)]
pub enum UpperMode {
    Sparse,
    LogStructured,
    HybridLogStructured,
}

/// The program that resizes an image, and how long it may take.
#[derive(Debug)]
pub struct ResizeToolSpec {
    pub program: FsPath,
    pub timeout_secs: u64,
}

/// A request of a client.
#[derive(Debug)]
pub enum DaemonRequest {
    CreateOverlaybd { image_config: FsPath, global_config: FsPath },
    CreateOverlaybdRuntimeDevice {
        source_image_config: FsPath,
        global_config: FsPath,
        runtime_dir: FsPath,
        read_only: bool,
        runtime_upper_mode: UpperMode,
        requested_virtual_size: Option<u64>,
        known_source_virtual_size: Option<u64>,
        allow_shrink: bool,
    },
    CreateCow { origin: FsPath, cow: FsPath },
    Delete { dev_id: u32 },
    RestackSnapshot { dev_id: u32, output_layer_path: FsPath },
    GetFeatures,
    NotifySandboxReady { device_key: String },
    AcquireOverlaybd {
        image_config: FsPath,
        global_config: FsPath,
        virtual_size: u64,
        access_mode: AccessMode,
    },
    ReleaseOverlaybd { dev_id: u32 },
    UpdateSize { dev_id: u32, new_sectors: u64 },
    Shutdown,
}

/// The answer to a request.
#[derive(Debug)]
pub enum DaemonResponse {
    Done,
    DeviceCreated { dev_id: u32, device_path: FsPath },
    OverlaybdRuntimeDeviceCreated {
        dev_id: u32,
        device_path: FsPath,
        actual_virtual_size: u64,
        runtime_image_config_path: FsPath,
    },
    Deleted,
    /// The descriptor of the new layer, in its serialized form.
    RestackSnapshotCreated { descriptor: String },
    Features { flags: u64 },
    DeviceAcquired { dev_id: u32, device_path: FsPath },
    Released,
    SizeUpdated,
    TerminalError { message: String },
    InvalidRequest { message: String },
    Error { message: String },
}

} // verus!
