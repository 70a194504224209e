//! The values of the configuration and their defaults.
use crate::config::image::ImageConfig;
use crate::config::network::NetworkConfig;
use crate::daemon::protocol::UpperMode;
use crate::fs_path::FsPath;
use vstd::prelude::*;
use vstd::utf8::*;

verus! {

/// How guests are virtualized.
#[derive(Debug, Clone, Copy, PartialEq, Eq, Structural)]
pub enum VirtualizationMode {
    Kvm,
    Pvm,
}

/// How artifacts travel between nodes.
#[derive(Debug, Clone, Copy, PartialEq, Eq, Structural)]
pub enum P2pTransportKind {
    Iroh,
}

/// Where the images of snapshots are stored.
#[derive(Debug, Clone, Copy, PartialEq, Eq, Structural)]
pub enum SnapshotImageStoragePolicy {
    ObjectStorage,
    SourceRegistry,
}

impl Default for SnapshotImageStoragePolicy {
    fn default() -> (r: Self)
        ensures
            r == SnapshotImageStoragePolicy::ObjectStorage,
    {
        SnapshotImageStoragePolicy::ObjectStorage
    }
}

/// Where the repository of snapshots is kept.
#[derive(Debug, Clone, Copy, PartialEq, Eq, Structural)]
pub enum SnapshotRepositoryBackendKind {
    PosixFs,
    Oss,
}

/// How memory snapshots are compressed.
#[derive(Debug, Clone, Copy, PartialEq, Eq, Structural)]
pub enum MemorySnapshotCompressionAlgorithm {
    Lz4,
    Zstd,
}

impl Default for MemorySnapshotCompressionAlgorithm {
    fn default() -> (r: Self)
        ensures
            r == MemorySnapshotCompressionAlgorithm::Lz4,
    {
        MemorySnapshotCompressionAlgorithm::Lz4
    }
}

/// The snapshot store in a directory.
#[derive(Debug, Clone)]
pub struct PosixFsBackendConfig {
    pub snapshot_store: FsPath,
}

impl PosixFsBackendConfig {
    /// The values of a configuration that sets nothing.
    pub open spec fn is_default(self) -> bool {
        &&& self.snapshot_store@ == encode_utf8("$AENV_HOME/snapshot-store"@)
    }
}

impl Default for PosixFsBackendConfig {
    fn default() -> (r: Self)
        ensures
            r.is_default(),
    {
        PosixFsBackendConfig {
            snapshot_store: FsPath::from_text("$AENV_HOME/snapshot-store"),
        }
    }
}

/// The places where snapshots are stored.
#[derive(Debug, Clone)]
pub struct BackendConfig {
    pub posix_fs: Option<PosixFsBackendConfig>,
    pub oss: Option<OssBackendConfig>,
}

impl BackendConfig {
    /// The values of a configuration that sets nothing.
    pub open spec fn is_default(self) -> bool {
        &&& self.posix_fs is None
        &&& self.oss is None
    }
}

impl Default for BackendConfig {
    fn default() -> (r: Self)
        ensures
            r.is_default(),
    {
        BackendConfig {
            posix_fs: None,
            oss: None,
        }
    }
}

/// The virtual machine monitor.
#[derive(Debug, Clone)]
pub struct FirecrackerConfig {
    pub binary_path: Option<FsPath>,
    pub boot_args: Option<String>,
    pub allowed_extra_boot_args_prefixes: Option<Vec<String>>,
    pub socket_timeout_secs: u64,
    pub socket_poll_ms: u64,
    pub version: Option<String>,
    pub url: Option<String>,
    /// The root of the work directories of sandboxes. Defaults to
    /// `$AENV_HOME/firecracker-work` after normalization.
    pub work_dir: Option<FsPath>,
    /// The directory of serial output, with one directory for each sandbox.
    /// Defaults to `$AENV_HOME/logs/serial` after normalization.
    pub serial_dir: Option<FsPath>,
    /// The log level; logging is on where it is set and not empty.
    pub log_level: Option<String>,
}

impl FirecrackerConfig {
    /// The values of a configuration that sets nothing.
    pub open spec fn is_default(self) -> bool {
        &&& self.binary_path is None
        &&& self.boot_args is None
        &&& self.allowed_extra_boot_args_prefixes is None
        &&& self.socket_timeout_secs == 3
        &&& self.socket_poll_ms == 1
        &&& self.version is None
        &&& self.url is None
        &&& self.work_dir is None
        &&& self.serial_dir is None
        &&& self.log_level is None
    }
}

impl Default for FirecrackerConfig {
    fn default() -> (r: Self)
        ensures
            r.is_default(),
    {
        FirecrackerConfig {
            binary_path: None,
            boot_args: None,
            allowed_extra_boot_args_prefixes: None,
            socket_timeout_secs: 3,
            socket_poll_ms: 1,
            version: None,
            url: None,
            work_dir: None,
            serial_dir: None,
            log_level: None,
        }
    }
}

/// One of the warm pools.
#[derive(Debug, Clone)]
pub struct PoolComponentConfig {
    pub enabled: bool,
    pub maintenance_enabled: bool,
    pub startup_prewarm: bool,
}

impl PoolComponentConfig {
    /// The values of a configuration that sets nothing.
    pub open spec fn is_default(self) -> bool {
        &&& self.enabled
        &&& self.maintenance_enabled
        &&& self.startup_prewarm
    }
}

impl Default for PoolComponentConfig {
    fn default() -> (r: Self)
        ensures
            r.is_default(),
    {
        PoolComponentConfig {
            enabled: true,
            maintenance_enabled: true,
            startup_prewarm: true,
        }
    }
}

/// The warm pool of virtual machine monitors.
#[derive(Debug, Clone)]
pub struct FirecrackerProcessPoolConfig {
    pub enabled: bool,
    pub maintenance_enabled: bool,
    pub startup_prewarm: bool,
    pub fill_concurrency: usize,
}

impl FirecrackerProcessPoolConfig {
    /// The values of a configuration that sets nothing.
    pub open spec fn is_default(self) -> bool {
        &&& self.enabled
        &&& self.maintenance_enabled
        &&& self.startup_prewarm
        &&& self.fill_concurrency == 4
    }
}

impl Default for FirecrackerProcessPoolConfig {
    fn default() -> (r: Self)
        ensures
            r.is_default(),
    {
        FirecrackerProcessPoolConfig {
            enabled: true,
            maintenance_enabled: true,
            startup_prewarm: true,
            fill_concurrency: 4,
        }
    }
}

/// How full the warm pools are kept.
#[derive(Debug, Clone)]
pub struct PoolTomlConfig {
    pub low_watermark: usize,
    pub high_watermark: usize,
    pub network: PoolComponentConfig,
    pub block: PoolComponentConfig,
    pub firecracker: FirecrackerProcessPoolConfig,
}

impl PoolTomlConfig {
    /// The values of a configuration that sets nothing.
    pub open spec fn is_default(self) -> bool {
        &&& self.low_watermark == 2
        &&& self.high_watermark == 64
        &&& self.network.is_default()
        &&& self.block.is_default()
        &&& self.firecracker.is_default()
    }
}

impl Default for PoolTomlConfig {
    fn default() -> (r: Self)
        ensures
            r.is_default(),
    {
        PoolTomlConfig {
            low_watermark: 2,
            high_watermark: 64,
            network: PoolComponentConfig::default(),
            block: PoolComponentConfig::default(),
            firecracker: FirecrackerProcessPoolConfig::default(),
        }
    }
}

/// The guest kernel.
#[derive(Debug, Clone)]
pub struct KernelConfig {
    pub image_path: Option<FsPath>,
    pub version: Option<String>,
    pub url: Option<String>,
}

impl KernelConfig {
    /// The values of a configuration that sets nothing.
    pub open spec fn is_default(self) -> bool {
        &&& self.image_path is None
        &&& self.version is None
        &&& self.url is None
    }
}

impl Default for KernelConfig {
    fn default() -> (r: Self)
        ensures
            r.is_default(),
    {
        KernelConfig {
            image_path: None,
            version: None,
            url: None,
        }
    }
}

/// The release of the overlaybd tools.
#[derive(Debug, Clone)]
pub struct OverlaybdDependencyConfig {
    pub version: String,
    pub url: Option<String>,
    pub package_url: Option<String>,
}

/// The drive with the tools inside a sandbox.
#[derive(Debug, Clone)]
pub struct ToolsConfig {
    /// Explicit source path for importing a local tools drive ext4 file.
    pub drive_path: Option<FsPath>,
    /// Immutable tools drive release version, such as `0.1.0`.
    pub version: Option<String>,
    /// Container registry URL template, such as
    /// `ghcr.io/org/agentenv-tools:{version}`.
    pub url: Option<String>,
    /// Control plane port inside the VM.
    pub control_plane_port: u16,
}

impl ToolsConfig {
    /// The values of a configuration that sets nothing.
    pub open spec fn is_default(self) -> bool {
        &&& self.drive_path is None
        &&& self.version is None
        &&& self.url is None
        &&& self.control_plane_port == 49983
    }
}

impl Default for ToolsConfig {
    fn default() -> (r: Self)
        ensures
            r.is_default(),
    {
        ToolsConfig {
            drive_path: None,
            version: None,
            url: None,
            control_plane_port: 49983,
        }
    }
}

/// The domains under which sandboxes are reached.
#[derive(Debug, Clone)]
pub struct SandboxProxyConfig {
    pub domains: Vec<String>,
}

impl SandboxProxyConfig {
    /// The values of a configuration that sets nothing.
    pub open spec fn is_default(self) -> bool {
        &&& self.domains@.len() == 0
    }
}

impl Default for SandboxProxyConfig {
    fn default() -> (r: Self)
        ensures
            r.is_default(),
    {
        SandboxProxyConfig {
            domains: Vec::new(),
        }
    }
}

/// The agent inside a sandbox.
#[derive(Debug, Clone)]
pub struct EnvdConfig {
    pub version: String,
    pub init_timeout_secs: u64,
    pub poll_ms: u64,
}

impl EnvdConfig {
    /// The values of a configuration that sets nothing.
    pub open spec fn is_default(self) -> bool {
        &&& self.version@ == "0.5.15"@
        &&& self.init_timeout_secs == 60
        &&& self.poll_ms == 3
    }
}

impl Default for EnvdConfig {
    fn default() -> (r: Self)
        ensures
            r.is_default(),
    {
        EnvdConfig {
            version: "0.5.15".to_owned(),
            init_timeout_secs: 60,
            poll_ms: 3,
        }
    }
}

/// The size of a virtual machine.
#[derive(Debug, Clone)]
pub struct MachineConfig {
    pub vcpu_count: u32,
    pub mem_size_mib: u32,
}

impl MachineConfig {
    /// The values of a configuration that sets nothing.
    pub open spec fn is_default(self) -> bool {
        &&& self.vcpu_count == 2
        &&& self.mem_size_mib == 1024
    }
}

impl Default for MachineConfig {
    fn default() -> (r: Self)
        ensures
            r.is_default(),
    {
        MachineConfig {
            vcpu_count: 2,
            mem_size_mib: 1024,
        }
    }
}

/// Whether snapshots are published as images.
#[derive(Debug, Clone)]
pub struct SnapshotImagePublishConfig {
    pub enabled: bool,
}

impl SnapshotImagePublishConfig {
    /// The values of a configuration that sets nothing.
    pub open spec fn is_default(self) -> bool {
        &&& !self.enabled
    }
}

impl Default for SnapshotImagePublishConfig {
    fn default() -> (r: Self)
        ensures
            r.is_default(),
    {
        SnapshotImagePublishConfig {
            enabled: false,
        }
    }
}

/// How snapshots are kept.
#[derive(Debug, Clone)]
pub struct SnapshotConfig {
    pub local_cache_path: FsPath,
    pub repository_backend: SnapshotRepositoryBackendKind,
    /// Whether snapshots are exchanged with other nodes, where the exchange
    /// itself is enabled.
    pub p2p_enabled: bool,
    pub image_publish: SnapshotImagePublishConfig,
}

impl SnapshotConfig {
    /// The values of a configuration that sets nothing.
    pub open spec fn is_default(self) -> bool {
        &&& self.local_cache_path@ == encode_utf8("$AENV_HOME/snapshot-local-cache"@)
        &&& self.repository_backend == SnapshotRepositoryBackendKind::PosixFs
        &&& self.p2p_enabled
        &&& self.image_publish.is_default()
    }
}

impl Default for SnapshotConfig {
    fn default() -> (r: Self)
        ensures
            r.is_default(),
    {
        SnapshotConfig {
            local_cache_path: FsPath::from_text("$AENV_HOME/snapshot-local-cache"),
            repository_backend: SnapshotRepositoryBackendKind::PosixFs,
            p2p_enabled: true,
            image_publish: SnapshotImagePublishConfig::default(),
        }
    }
}

/// A bucket in an object store.
#[derive(Debug, Clone)]
pub struct OssBackendConfig {
    pub endpoint: String,
    pub bucket: String,
    pub prefix: Option<String>,
    pub credential_process: Option<String>,
    pub access_key_id: Option<String>,
    pub access_key_secret: Option<String>,
    pub security_token: Option<String>,
    pub region: Option<String>,
    pub cache_max_size_gb: Option<u64>,
}

/// Block devices that serve overlaybd images.
#[derive(Debug, Clone)]
pub struct UblkOverlaybdTomlConfig {
    pub global_config_path: FsPath,
    pub read_only: bool,
    /// The format of new writable layers. Layers that exist keep theirs.
    pub runtime_upper_mode: UpperMode,
    /// Permit shrinking a fresh cold-sandbox rootfs.
    pub allow_shrink: bool,
    /// How long the resize tool may take.
    pub resize_timeout_secs: u64,
    /// Whether whole layers are downloaded in the background.
    pub download_enable: bool,
    /// How long the lookup of a provider may take.
    pub p2p_lookup_timeout_ms: u64,
    /// How long the fetch of a range may take.
    pub p2p_fetch_range_timeout_ms: u64,
}

impl UblkOverlaybdTomlConfig {
    /// The values of a configuration that sets nothing.
    pub open spec fn is_default(self) -> bool {
        &&& self.global_config_path@ == encode_utf8("$AENV_HOME/overlaybd/overlaybd-global.json"@)
        &&& !self.read_only
        &&& self.runtime_upper_mode == UpperMode::HybridLogStructured
        &&& !self.allow_shrink
        &&& self.resize_timeout_secs == 120
        &&& !self.download_enable
        &&& self.p2p_lookup_timeout_ms == 300
        &&& self.p2p_fetch_range_timeout_ms == 2000
    }
}

impl Default for UblkOverlaybdTomlConfig {
    fn default() -> (r: Self)
        ensures
            r.is_default(),
    {
        UblkOverlaybdTomlConfig {
            global_config_path: FsPath::from_text("$AENV_HOME/overlaybd/overlaybd-global.json"),
            read_only: false,
            runtime_upper_mode: UpperMode::HybridLogStructured,
            allow_shrink: false,
            resize_timeout_secs: 120,
            download_enable: false,
            p2p_lookup_timeout_ms: 300,
            p2p_fetch_range_timeout_ms: 2000,
        }
    }
}

/// The block-device daemon.
#[derive(Debug, Clone)]
pub struct UblkTomlConfig {
    pub enabled: bool,
    pub daemon_binary_path: Option<FsPath>,
    /// The control socket of the daemon.
    pub daemon_socket_path: FsPath,
    /// Defaults to `$AENV_HOME/logs/ublk-daemon.log` after normalization.
    pub daemon_log_path: Option<FsPath>,
    /// Where the daemon serves its metrics; nowhere where it is empty.
    pub daemon_metrics_listen_addr: String,
    pub device_type: String,
    pub overlaybd: UblkOverlaybdTomlConfig,
}

impl UblkTomlConfig {
    /// The values of a configuration that sets nothing.
    pub open spec fn is_default(self) -> bool {
        &&& self.enabled
        &&& self.daemon_binary_path is None
        &&& self.daemon_socket_path@ == encode_utf8("$AENV_RUNTIME/ublk-daemon.sock"@)
        &&& self.daemon_log_path is None
        &&& self.daemon_metrics_listen_addr@ == "0.0.0.0:9103"@
        &&& self.device_type@ == "overlaybd"@
        &&& self.overlaybd.is_default()
    }
}

impl Default for UblkTomlConfig {
    fn default() -> (r: Self)
        ensures
            r.is_default(),
    {
        UblkTomlConfig {
            enabled: true,
            daemon_binary_path: None,
            daemon_socket_path: FsPath::from_text("$AENV_RUNTIME/ublk-daemon.sock"),
            daemon_log_path: None,
            daemon_metrics_listen_addr: "0.0.0.0:9103".to_owned(),
            device_type: "overlaybd".to_owned(),
            overlaybd: UblkOverlaybdTomlConfig::default(),
        }
    }
}

/// How the layers of a memory snapshot are downloaded in the background.
#[derive(Debug, Clone)]
pub struct MemorySnapshotBackgroundDownloadConfig {
    pub enable: bool,
    pub delay: i32,
    pub delay_extra: i32,
    pub try_cnt: i32,
    pub block_size: u32,
    pub concurrency: usize,
    /// How many blocks are in flight on the whole node.
    pub max_inflight_blocks: usize,
}

impl MemorySnapshotBackgroundDownloadConfig {
    /// The values of a configuration that sets nothing.
    pub open spec fn is_default(self) -> bool {
        &&& self.enable
        &&& self.delay == 0
        &&& self.delay_extra == 1
        &&& self.try_cnt == 5
        &&& self.block_size == 16777216
        &&& self.concurrency == 4
        &&& self.max_inflight_blocks == 16
    }
}

impl Default for MemorySnapshotBackgroundDownloadConfig {
    fn default() -> (r: Self)
        ensures
            r.is_default(),
    {
        MemorySnapshotBackgroundDownloadConfig {
            enable: true,
            delay: 0,
            delay_extra: 1,
            try_cnt: 5,
            block_size: 16777216,
            concurrency: 4,
            max_inflight_blocks: 16,
        }
    }
}

/// How the memory of a sandbox is kept in a snapshot.
#[derive(Debug, Clone)]
pub struct MemorySnapshotConfig {
    pub overlaybd_global_config_path: FsPath,
    pub direct_overlaybd: bool,
    pub compression_enabled: bool,
    pub compression_algorithm: MemorySnapshotCompressionAlgorithm,
    /// How many threads compress the blocks of one layer.
    pub compression_workers: usize,
    pub background_download: MemorySnapshotBackgroundDownloadConfig,
}

impl MemorySnapshotConfig {
    /// The values of a configuration that sets nothing.
    pub open spec fn is_default(self) -> bool {
        &&& self.overlaybd_global_config_path@ == encode_utf8("$AENV_HOME/overlaybd/mem-overlaybd-global.json"@)
        &&& self.direct_overlaybd
        &&& !self.compression_enabled
        &&& self.compression_algorithm == MemorySnapshotCompressionAlgorithm::Lz4
        &&& self.compression_workers == 1
        &&& self.background_download.is_default()
    }
}

impl Default for MemorySnapshotConfig {
    fn default() -> (r: Self)
        ensures
            r.is_default(),
    {
        MemorySnapshotConfig {
            overlaybd_global_config_path: FsPath::from_text("$AENV_HOME/overlaybd/mem-overlaybd-global.json"),
            direct_overlaybd: true,
            compression_enabled: false,
            compression_algorithm: MemorySnapshotCompressionAlgorithm::Lz4,
            compression_workers: 1,
            background_download: MemorySnapshotBackgroundDownloadConfig::default(),
        }
    }
}

/// Reports to the scheduler.
#[derive(Debug, Clone)]
pub struct ObservabilitySchedulerReportConfig {
    pub enabled: bool,
    pub interval_secs: u64,
}

impl ObservabilitySchedulerReportConfig {
    /// The values of a configuration that sets nothing.
    pub open spec fn is_default(self) -> bool {
        &&& !self.enabled
        &&& self.interval_secs == 5
    }
}

impl Default for ObservabilitySchedulerReportConfig {
    fn default() -> (r: Self)
        ensures
            r.is_default(),
    {
        ObservabilitySchedulerReportConfig {
            enabled: false,
            interval_secs: 5,
        }
    }
}

/// What the node tells of itself.
#[derive(Debug, Clone)]
pub struct ObservabilityConfig {
    pub enabled: bool,
    pub scheduler_report: ObservabilitySchedulerReportConfig,
}

impl ObservabilityConfig {
    /// The values of a configuration that sets nothing.
    pub open spec fn is_default(self) -> bool {
        &&& self.enabled
        &&& self.scheduler_report.is_default()
    }
}

impl Default for ObservabilityConfig {
    fn default() -> (r: Self)
        ensures
            r.is_default(),
    {
        ObservabilityConfig {
            enabled: true,
            scheduler_report: ObservabilitySchedulerReportConfig::default(),
        }
    }
}

/// The cluster that the node belongs to.
#[derive(Debug, Clone)]
pub struct ClusterConfig {
    /// The endpoint of the scheduler.
    pub scheduler_endpoint: Option<String>,
}

impl ClusterConfig {
    /// The values of a configuration that sets nothing.
    pub open spec fn is_default(self) -> bool {
        &&& self.scheduler_endpoint is None
    }
}

impl Default for ClusterConfig {
    fn default() -> (r: Self)
        ensures
            r.is_default(),
    {
        ClusterConfig {
            scheduler_endpoint: None,
        }
    }
}

/// Who the node is.
#[derive(Debug, Clone)]
pub struct NodeIdentityConfig {
    pub node_id: Option<String>,
    pub cluster_id: Option<String>,
    pub service_instance_id: Option<String>,
}

impl NodeIdentityConfig {
    /// The values of a configuration that sets nothing.
    pub open spec fn is_default(self) -> bool {
        &&& self.node_id is None
        &&& self.cluster_id is None
        &&& self.service_instance_id is None
    }
}

impl Default for NodeIdentityConfig {
    fn default() -> (r: Self)
        ensures
            r.is_default(),
    {
        NodeIdentityConfig {
            node_id: None,
            cluster_id: None,
            service_instance_id: None,
        }
    }
}

/// How long sandboxes live.
#[derive(Debug, Clone)]
pub struct OrchestratorConfig {
    pub auto_evict_interval_ms: u64,
    pub default_sandbox_timeout_secs: u64,
    pub auto_resume_min_sandbox_timeout_secs: u64,
    pub persisted_sandbox_store_path: FsPath,
}

impl OrchestratorConfig {
    /// The values of a configuration that sets nothing.
    pub open spec fn is_default(self) -> bool {
        &&& self.auto_evict_interval_ms == 1000
        &&& self.default_sandbox_timeout_secs == 15
        &&& self.auto_resume_min_sandbox_timeout_secs == 300
        &&& self.persisted_sandbox_store_path@ == encode_utf8("$AENV_HOME/persisted-sandboxes"@)
    }
}

impl Default for OrchestratorConfig {
    fn default() -> (r: Self)
        ensures
            r.is_default(),
    {
        OrchestratorConfig {
            auto_evict_interval_ms: 1000,
            default_sandbox_timeout_secs: 15,
            auto_resume_min_sandbox_timeout_secs: 300,
            persisted_sandbox_store_path: FsPath::from_text("$AENV_HOME/persisted-sandboxes"),
        }
    }
}

/// An HTTP service that extends the node.
#[derive(Debug, Clone)]
pub struct CustomExtensionConfig {
    /// The base URL; without it there is no extension.
    pub url: Option<String>,
    /// How long a call may take.
    pub timeout_ms: u64,
}

impl CustomExtensionConfig {
    /// The values of a configuration that sets nothing.
    pub open spec fn is_default(self) -> bool {
        &&& self.url is None
        &&& self.timeout_ms == 5000
    }
}

impl Default for CustomExtensionConfig {
    fn default() -> (r: Self)
        ensures
            r.is_default(),
    {
        CustomExtensionConfig {
            url: None,
            timeout_ms: 5000,
        }
    }
}

/// The exchange of artifacts with other nodes.
#[derive(Debug, Clone)]
pub struct P2pConfig {
    pub enabled: bool,
    pub transport: P2pTransportKind,
    pub store_dir: FsPath,
    pub listen_addr: String,
    pub lookup_timeout_ms: u64,
    pub fetch_timeout_ms: u64,
    pub peer_discovery_refresh_interval_secs: u64,
}

impl P2pConfig {
    /// The values of a configuration that sets nothing.
    pub open spec fn is_default(self) -> bool {
        &&& !self.enabled
        &&& self.transport == P2pTransportKind::Iroh
        &&& self.store_dir@ == encode_utf8("$AENV_HOME/p2p/store"@)
        &&& self.listen_addr@ == "0.0.0.0:0"@
        &&& self.lookup_timeout_ms == 5000
        &&& self.fetch_timeout_ms == 30000
        &&& self.peer_discovery_refresh_interval_secs == 5
    }
}

impl Default for P2pConfig {
    fn default() -> (r: Self)
        ensures
            r.is_default(),
    {
        P2pConfig {
            enabled: false,
            transport: P2pTransportKind::Iroh,
            store_dir: FsPath::from_text("$AENV_HOME/p2p/store"),
            listen_addr: "0.0.0.0:0".to_owned(),
            lookup_timeout_ms: 5000,
            fetch_timeout_ms: 30000,
            peer_discovery_refresh_interval_secs: 5,
        }
    }
}

/// The configuration of the server.
#[derive(Debug, Clone)]
pub struct AppConfig {
    pub home_path: FsPath,
    pub runtime_path: FsPath,
    pub deps_path: FsPath,
    pub virtualization_mode: VirtualizationMode,
    pub firecracker: FirecrackerConfig,
    pub kernel: KernelConfig,
    pub tools: ToolsConfig,
    pub overlaybd: Option<OverlaybdDependencyConfig>,
    pub machine: MachineConfig,
    pub backend: BackendConfig,
    pub envd: EnvdConfig,
    pub orchestrator: OrchestratorConfig,
    pub snapshot: SnapshotConfig,
    pub ublk: UblkTomlConfig,
    pub observability: ObservabilityConfig,
    pub cluster: ClusterConfig,
    pub node_identity: NodeIdentityConfig,
    pub memory_snapshot: MemorySnapshotConfig,
    pub pool: PoolTomlConfig,
    pub p2p: P2pConfig,
    pub image: ImageConfig,
    pub sandbox_proxy: SandboxProxyConfig,
    pub network: NetworkConfig,
    pub custom_extension: CustomExtensionConfig,
}

impl AppConfig {
    /// The values of a configuration that sets nothing.
    pub open spec fn is_default(self) -> bool {
        &&& self.home_path@ == encode_utf8("/var/lib/aenv"@)
        &&& self.runtime_path@ == encode_utf8("/run/aenv"@)
        &&& self.deps_path@ == encode_utf8("$AENV_HOME/deps"@)
        &&& self.virtualization_mode == VirtualizationMode::Kvm
        &&& self.firecracker.is_default()
        &&& self.kernel.is_default()
        &&& self.tools.is_default()
        &&& self.overlaybd is None
        &&& self.machine.is_default()
        &&& self.backend.is_default()
        &&& self.envd.is_default()
        &&& self.orchestrator.is_default()
        &&& self.snapshot.is_default()
        &&& self.ublk.is_default()
        &&& self.observability.is_default()
        &&& self.cluster.is_default()
        &&& self.node_identity.is_default()
        &&& self.memory_snapshot.is_default()
        &&& self.pool.is_default()
        &&& self.p2p.is_default()
        &&& self.image.is_default()
        &&& self.sandbox_proxy.is_default()
        &&& self.network.is_default()
        &&& self.custom_extension.is_default()
    }
}

impl Default for AppConfig {
    fn default() -> (r: Self)
        ensures
            r.is_default(),
            r.home_path@ == encode_utf8("/var/lib/aenv"@),
            r.runtime_path@ == encode_utf8("/run/aenv"@),
            r.deps_path@ == encode_utf8("$AENV_HOME/deps"@),
            r.virtualization_mode == VirtualizationMode::Kvm,
            r.firecracker.binary_path is None,
            r.firecracker.boot_args is None,
            r.firecracker.allowed_extra_boot_args_prefixes is None,
            r.firecracker.socket_timeout_secs == 3,
            r.firecracker.socket_poll_ms == 1,
            r.firecracker.version is None,
            r.firecracker.url is None,
            r.firecracker.work_dir is None,
            r.firecracker.serial_dir is None,
            r.firecracker.log_level is None,
            r.kernel.image_path is None,
            r.kernel.version is None,
            r.kernel.url is None,
            r.tools.drive_path is None,
            r.tools.version is None,
            r.tools.url is None,
            r.tools.control_plane_port == 49983,
            r.overlaybd is None,
            r.machine.vcpu_count == 2,
            r.machine.mem_size_mib == 1024,
            r.backend.posix_fs is None,
            r.backend.oss is None,
            r.envd.version@ == "0.5.15"@,
            r.envd.init_timeout_secs == 60,
            r.envd.poll_ms == 3,
            r.orchestrator.auto_evict_interval_ms == 1000,
            r.orchestrator.default_sandbox_timeout_secs == 15,
            r.orchestrator.auto_resume_min_sandbox_timeout_secs == 300,
            r.orchestrator.persisted_sandbox_store_path@ == encode_utf8("$AENV_HOME/persisted-sandboxes"@),
            r.snapshot.local_cache_path@ == encode_utf8("$AENV_HOME/snapshot-local-cache"@),
            r.snapshot.repository_backend == SnapshotRepositoryBackendKind::PosixFs,
            r.snapshot.p2p_enabled,
            !r.snapshot.image_publish.enabled,
            r.ublk.enabled,
            r.ublk.daemon_binary_path is None,
            r.ublk.daemon_socket_path@ == encode_utf8("$AENV_RUNTIME/ublk-daemon.sock"@),
            r.ublk.daemon_log_path is None,
            r.ublk.daemon_metrics_listen_addr@ == "0.0.0.0:9103"@,
            r.ublk.device_type@ == "overlaybd"@,
            r.ublk.overlaybd.global_config_path@ == encode_utf8("$AENV_HOME/overlaybd/overlaybd-global.json"@),
            !r.ublk.overlaybd.read_only,
            r.ublk.overlaybd.runtime_upper_mode == UpperMode::HybridLogStructured,
            !r.ublk.overlaybd.allow_shrink,
            r.ublk.overlaybd.resize_timeout_secs == 120,
            !r.ublk.overlaybd.download_enable,
            r.ublk.overlaybd.p2p_lookup_timeout_ms == 300,
            r.ublk.overlaybd.p2p_fetch_range_timeout_ms == 2000,
            r.observability.enabled,
            !r.observability.scheduler_report.enabled,
            r.observability.scheduler_report.interval_secs == 5,
            r.cluster.scheduler_endpoint is None,
            r.node_identity.node_id is None,
            r.node_identity.cluster_id is None,
            r.node_identity.service_instance_id is None,
            r.memory_snapshot.overlaybd_global_config_path@ == encode_utf8("$AENV_HOME/overlaybd/mem-overlaybd-global.json"@),
            r.memory_snapshot.direct_overlaybd,
            !r.memory_snapshot.compression_enabled,
            r.memory_snapshot.compression_algorithm == MemorySnapshotCompressionAlgorithm::Lz4,
            r.memory_snapshot.compression_workers == 1,
            r.memory_snapshot.background_download.enable,
            r.memory_snapshot.background_download.delay == 0,
            r.memory_snapshot.background_download.delay_extra == 1,
            r.memory_snapshot.background_download.try_cnt == 5,
            r.memory_snapshot.background_download.block_size == 16777216,
            r.memory_snapshot.background_download.concurrency == 4,
            r.memory_snapshot.background_download.max_inflight_blocks == 16,
            r.pool.low_watermark == 2,
            r.pool.high_watermark == 64,
            r.pool.network.enabled,
            r.pool.network.maintenance_enabled,
            r.pool.network.startup_prewarm,
            r.pool.block.enabled,
            r.pool.block.maintenance_enabled,
            r.pool.block.startup_prewarm,
            r.pool.firecracker.enabled,
            r.pool.firecracker.maintenance_enabled,
            r.pool.firecracker.startup_prewarm,
            r.pool.firecracker.fill_concurrency == 4,
            !r.p2p.enabled,
            r.p2p.transport == P2pTransportKind::Iroh,
            r.p2p.store_dir@ == encode_utf8("$AENV_HOME/p2p/store"@),
            r.p2p.listen_addr@ == "0.0.0.0:0"@,
            r.p2p.lookup_timeout_ms == 5000,
            r.p2p.fetch_timeout_ms == 30000,
            r.p2p.peer_discovery_refresh_interval_secs == 5,
            r.image.cache.root_dir@ == encode_utf8("$AENV_HOME/image-cache"@),
            r.image.cache.remote_blocks.max_size_gb == 100,
            r.image.cache.gc.high_watermark_ratio.bits == 0x3FEC_CCCC_CCCC_CCCD,
            r.image.cache.gc.low_watermark_ratio.bits == 0x3FE9_9999_9999_999A,
            r.sandbox_proxy.domains@.len() == 0,
            r.network.egress.always_denied_cidrs@.len() == 0,
            r.network.internal.host_interaction_cidr@ == "100.64.0.0/16"@,
            r.network.internal.veth_cidr@ == "100.65.0.0/16"@,
            r.custom_extension.url is None,
            r.custom_extension.timeout_ms == 5000,
    {
        AppConfig {
            home_path: FsPath::from_text("/var/lib/aenv"),
            runtime_path: FsPath::from_text("/run/aenv"),
            deps_path: FsPath::from_text("$AENV_HOME/deps"),
            virtualization_mode: VirtualizationMode::Kvm,
            firecracker: FirecrackerConfig::default(),
            kernel: KernelConfig::default(),
            tools: ToolsConfig::default(),
            overlaybd: None,
            machine: MachineConfig::default(),
            backend: BackendConfig::default(),
            envd: EnvdConfig::default(),
            orchestrator: OrchestratorConfig::default(),
            snapshot: SnapshotConfig::default(),
            ublk: UblkTomlConfig::default(),
            observability: ObservabilityConfig::default(),
            cluster: ClusterConfig::default(),
            node_identity: NodeIdentityConfig::default(),
            memory_snapshot: MemorySnapshotConfig::default(),
            pool: PoolTomlConfig::default(),
            p2p: P2pConfig::default(),
            image: ImageConfig::default(),
            sandbox_proxy: SandboxProxyConfig::default(),
            network: NetworkConfig::default(),
            custom_extension: CustomExtensionConfig::default(),
        }
    }
}

} // verus!
