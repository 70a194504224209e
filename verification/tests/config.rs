use std::path::{Path, PathBuf};

use aenv::config::image::Ratio;
use aenv::config::manager::{ConfigManager, ENV_CONFIG_PATH};
use aenv::config::network::{
    normalize_dns_name, NetworkConfig, NetworkEgressConfig, NetworkInternalConfig,
};
use aenv::config::paths::{
    parse_required_path, parse_trimmed_string, resolve_path, resolve_relative_to,
    resolve_runtime_path,
};
use aenv::config::resolve::{regctl_path, tools_drive_for, ParsedVersion};
use aenv::config::types::{
    AppConfig, ClusterConfig, FirecrackerProcessPoolConfig, MemorySnapshotCompressionAlgorithm,
    MemorySnapshotConfig, OverlaybdDependencyConfig, PoolComponentConfig, PoolTomlConfig,
    PosixFsBackendConfig, SandboxProxyConfig, SnapshotImageStoragePolicy,
    SnapshotRepositoryBackendKind, VirtualizationMode,
};
use aenv::config::validate::CanonicalPaths;
use aenv::failure::Failure;
use aenv::fs_path::FsPath;
use aenv::manifest::{
    ManifestDownload, ManifestVirtualizationDownloads, SetupDependencyManifest,
};
use tempfile::tempdir;

fn fs(text: &str) -> FsPath {
    FsPath::from_text(text)
}

fn from_std(path: &Path) -> FsPath {
    FsPath::from_text(path.to_str().unwrap())
}

fn to_std(path: &FsPath) -> PathBuf {
    PathBuf::from(path.to_text().unwrap())
}

fn opt_std(path: &Option<FsPath>) -> Option<PathBuf> {
    path.as_ref().map(to_std)
}

fn none() -> CanonicalPaths {
    CanonicalPaths {
        rootfs: None,
        memory: None,
    }
}

fn validate(config: &AppConfig) -> Result<(), Failure> {
    config.validate(&none())
}

fn download(version: &str) -> ManifestDownload {
    ManifestDownload {
        version: version.to_string(),
        url: format!("https://example.invalid/{{arch}}/{version}"),
    }
}

fn manifest() -> SetupDependencyManifest {
    SetupDependencyManifest {
        firecracker: ManifestVirtualizationDownloads {
            kvm: download("fc-kvm"),
            pvm: download("fc-pvm"),
        },
        kernel: ManifestVirtualizationDownloads {
            kvm: download("kernel-kvm"),
            pvm: download("kernel-pvm"),
        },
        tools: download("0.1.0"),
        overlaybd: OverlaybdDependencyConfig {
            version: "v1.0.18-aenv.1".to_string(),
            url: None,
            package_url: None,
        },
        regclient: download("v0.11.5"),
    }
}

#[test]
fn memory_snapshot_background_download_defaults() {
    let config = MemorySnapshotConfig::default();
    let download = config.background_download;

    assert!(download.enable);
    assert_eq!(download.delay, 0);
    assert_eq!(download.delay_extra, 1);
    assert_eq!(download.try_cnt, 5);
    assert_eq!(download.block_size, 16 * 1024 * 1024);
    assert_eq!(download.concurrency, 4);
    assert_eq!(download.max_inflight_blocks, 16);
}

#[test]
fn memory_snapshot_compression_defaults() {
    let default = MemorySnapshotConfig::default();
    assert!(!default.compression_enabled);
    assert_eq!(
        default.compression_algorithm,
        MemorySnapshotCompressionAlgorithm::Lz4
    );
    assert_eq!(default.compression_workers, 1);
    assert_eq!(
        MemorySnapshotCompressionAlgorithm::default(),
        MemorySnapshotCompressionAlgorithm::Lz4
    );
    assert_eq!(
        SnapshotImageStoragePolicy::default(),
        SnapshotImageStoragePolicy::ObjectStorage
    );
}

#[test]
fn validate_rejects_zero_memory_snapshot_download_concurrency() {
    let mut config = AppConfig::default();
    config.memory_snapshot.background_download.concurrency = 0;

    let err = validate(&config).unwrap_err();
    assert!(
        err.message()
            .contains("memory_snapshot.background_download.concurrency must be > 0"),
        "unexpected error: {}",
        err.message()
    );
}

#[test]
fn validate_rejects_shared_overlaybd_global_config_path() {
    let mut config = AppConfig::default();
    let shared_path = fs("/tmp/shared-overlaybd-global.json");
    config.ublk.overlaybd.global_config_path = shared_path.clone();
    config.memory_snapshot.overlaybd_global_config_path = shared_path;

    let err = validate(&config).unwrap_err();
    let message = err.message();
    assert!(message.contains("ublk.overlaybd.global_config_path"));
    assert!(message.contains("memory_snapshot.overlaybd_global_config_path"));
    assert!(message.contains("must be different"));
}

#[test]
fn validate_rejects_aliased_overlaybd_global_config_paths() {
    let mut config = AppConfig::default();
    config.ublk.overlaybd.global_config_path = fs("/tmp/aenv/x/../global.json");
    config.memory_snapshot.overlaybd_global_config_path = fs("/tmp/aenv/global.json");

    let err = validate(&config).unwrap_err();
    assert!(
        err.message().contains("must be different"),
        "{}",
        err.message()
    );

    let mut config = AppConfig::default();
    config.ublk.overlaybd.global_config_path = fs("/tmp/./benv/global.json");
    config.memory_snapshot.overlaybd_global_config_path = fs("/tmp/benv/global.json");
    assert!(validate(&config).is_err());
}

#[test]
fn validate_rejects_global_configs_with_one_canonical_path() {
    let config = AppConfig::default();
    let same = CanonicalPaths {
        rootfs: Some(fs("/data/global.json")),
        memory: Some(fs("/data//global.json")),
    };
    assert!(config
        .validate(&same)
        .unwrap_err()
        .message()
        .contains("must be different"));

    let different = CanonicalPaths {
        rootfs: Some(fs("/data/global.json")),
        memory: Some(fs("/data/mem-global.json")),
    };
    assert!(config.validate(&different).is_ok());
}

#[test]
fn validate_bounds_memory_snapshot_background_download() {
    let mut config = AppConfig::default();
    config.memory_snapshot.background_download.concurrency = 17;
    assert!(validate(&config).is_err());

    let mut config = AppConfig::default();
    config.memory_snapshot.background_download.block_size = 65 * 1024 * 1024;
    config.memory_snapshot.background_download.concurrency = 1;
    assert!(validate(&config).is_err());

    let mut config = AppConfig::default();
    config.memory_snapshot.background_download.block_size = 64 * 1024 * 1024;
    config.memory_snapshot.background_download.concurrency = 8;
    assert!(validate(&config).is_err());

    let mut config = AppConfig::default();
    config.memory_snapshot.background_download.block_size = 32 * 1024 * 1024;
    config.memory_snapshot.background_download.concurrency = 8;
    validate(&config).expect("defaults-shaped config passes");

    let mut config = AppConfig::default();
    config.memory_snapshot.background_download.delay = -1;
    assert!(validate(&config).is_err());

    let mut config = AppConfig::default();
    config.memory_snapshot.background_download.try_cnt = 0;
    assert!(validate(&config).is_err());
}

#[test]
fn download_bounds_are_told_exactly() {
    let mut config = AppConfig::default();
    config.memory_snapshot.background_download.concurrency = 17;
    assert_eq!(
        validate(&config).unwrap_err().message(),
        "memory_snapshot.background_download.concurrency must be <= 16"
    );

    let mut config = AppConfig::default();
    config.memory_snapshot.background_download.block_size = 64 * 1024 * 1024 + 1;
    assert_eq!(
        validate(&config).unwrap_err().message(),
        "memory_snapshot.background_download.block_size must be <= 67108864"
    );

    let mut config = AppConfig::default();
    config.memory_snapshot.background_download.block_size = 64 * 1024 * 1024;
    config.memory_snapshot.background_download.concurrency = 5;
    assert_eq!(
        validate(&config).unwrap_err().message(),
        "memory_snapshot.background_download block_size * concurrency must be <= 268435456 bytes"
    );

    let mut config = AppConfig::default();
    config.memory_snapshot.background_download.max_inflight_blocks = 0;
    assert_eq!(
        validate(&config).unwrap_err().message(),
        "memory_snapshot.background_download.max_inflight_blocks must be > 0"
    );

    let mut config = AppConfig::default();
    config.memory_snapshot.background_download.max_inflight_blocks = 129;
    assert_eq!(
        validate(&config).unwrap_err().message(),
        "memory_snapshot.background_download.max_inflight_blocks must be <= 128"
    );

    let mut config = AppConfig::default();
    config.memory_snapshot.background_download.block_size = 64 * 1024 * 1024;
    config.memory_snapshot.background_download.concurrency = 1;
    config.memory_snapshot.background_download.max_inflight_blocks = 33;
    assert_eq!(
        validate(&config).unwrap_err().message(),
        "memory_snapshot.background_download block_size * max_inflight_blocks must be <= 2147483648 bytes"
    );
    config.memory_snapshot.background_download.max_inflight_blocks = 32;
    assert!(validate(&config).is_ok());
}

#[test]
fn overlaybd_converter_cache_version_includes_tool_version() {
    let config = AppConfig::default();
    assert_eq!(
        config.resolved_overlaybd_oci_converter_id(&manifest()),
        "overlaybd-oci:v1.0.18-aenv.1:agentenv-cache-v1"
    );
    assert!(!config.ublk.overlaybd.allow_shrink);
    assert_eq!(config.ublk.overlaybd.resize_timeout_secs, 120);
}

#[test]
fn resolve_path_joins_relative_paths_against_config_dir() {
    let temp = tempdir().unwrap();
    let config_dir = temp.path();
    let home_path = temp.path().join("home");
    let resolve = |raw: &str| {
        to_std(&resolve_path(
            &from_std(&home_path),
            &from_std(config_dir),
            &fs(raw),
        ))
    };

    assert_eq!(resolve("./env"), config_dir.join("./env"));
    assert_eq!(resolve("bin/firecracker"), config_dir.join("bin/firecracker"));
    assert_eq!(
        resolve("overlaybd/global.json"),
        config_dir.join("overlaybd/global.json")
    );
    assert_eq!(
        resolve("$AENV_HOME/image-cache"),
        home_path.join("image-cache")
    );
}

#[test]
fn normalize_paths_relative_to_config_dir() {
    let temp = tempdir().unwrap();
    let config_dir = temp.path().join("configs");
    let mut config = AppConfig {
        deps_path: fs("./env"),
        ..Default::default()
    };
    config.firecracker.binary_path = Some(fs("./bin/firecracker"));
    config.firecracker.work_dir = Some(fs("./firecracker-work"));
    config.firecracker.serial_dir = Some(fs("./firecracker-serial"));
    config.kernel.image_path = Some(fs("./kernel/vmlinux.bin"));
    config.tools.drive_path = Some(fs("./tools.ext4"));
    config.image.cache.root_dir = fs("./custom-image-cache");
    config.snapshot.local_cache_path = fs("./snapshot-local-cache");
    config.backend.posix_fs = Some(PosixFsBackendConfig {
        snapshot_store: fs("./snapshot-store"),
    });
    config.p2p.store_dir = fs("./p2p-store");
    config.ublk.daemon_binary_path = Some(fs("./bin/uvm-ublk-daemon"));
    config.ublk.daemon_socket_path = fs("./run/uvm-ublk-daemon.sock");
    config.ublk.daemon_log_path = Some(fs("./logs/uvm-ublk-daemon.log"));
    config.ublk.overlaybd.global_config_path = fs("./overlaybd-global.json");
    config.memory_snapshot.overlaybd_global_config_path = fs("./mem-overlaybd-global.json");
    config.orchestrator.persisted_sandbox_store_path = fs("./persisted-sandboxes");
    config.normalize(&from_std(&config_dir)).unwrap();

    assert_eq!(to_std(&config.deps_path), config_dir.join("env"));
    assert_eq!(
        opt_std(&config.firecracker.binary_path),
        Some(config_dir.join("bin/firecracker"))
    );
    assert_eq!(
        opt_std(&config.firecracker.work_dir),
        Some(config_dir.join("firecracker-work"))
    );
    assert_eq!(
        opt_std(&config.firecracker.serial_dir),
        Some(config_dir.join("firecracker-serial"))
    );
    assert_eq!(
        opt_std(&config.kernel.image_path),
        Some(config_dir.join("kernel/vmlinux.bin"))
    );
    assert_eq!(
        opt_std(&config.tools.drive_path),
        Some(config_dir.join("tools.ext4"))
    );
    assert_eq!(
        to_std(&config.image.cache.root_dir),
        config_dir.join("custom-image-cache")
    );
    assert_eq!(
        to_std(&config.snapshot.local_cache_path),
        config_dir.join("snapshot-local-cache")
    );
    assert_eq!(to_std(&config.p2p.store_dir), config_dir.join("p2p-store"));
    assert_eq!(
        to_std(&config.backend.posix_fs.as_ref().unwrap().snapshot_store),
        config_dir.join("snapshot-store")
    );
    assert_eq!(
        opt_std(&config.ublk.daemon_binary_path),
        Some(config_dir.join("bin/uvm-ublk-daemon"))
    );
    assert_eq!(
        to_std(&config.ublk.daemon_socket_path),
        config_dir.join("run/uvm-ublk-daemon.sock")
    );
    assert_eq!(
        opt_std(&config.ublk.daemon_log_path),
        Some(config_dir.join("logs/uvm-ublk-daemon.log"))
    );
    assert_eq!(
        to_std(&config.ublk.overlaybd.global_config_path),
        config_dir.join("overlaybd-global.json")
    );
    assert_eq!(
        to_std(&config.memory_snapshot.overlaybd_global_config_path),
        config_dir.join("mem-overlaybd-global.json")
    );
    assert_eq!(
        to_std(&config.orchestrator.persisted_sandbox_store_path),
        config_dir.join("persisted-sandboxes")
    );
}

#[test]
fn managed_dependency_paths_remain_implicit_and_resolve_from_deps_path() {
    let temp = tempdir().unwrap();
    let config_dir = temp.path().join("configs");
    let mut config = AppConfig {
        deps_path: fs("./deps"),
        ..Default::default()
    };
    config.firecracker.version = Some("fc-test".to_string());
    config.kernel.version = Some("kernel-test".to_string());
    config.tools.version = Some("1.2.3-custom.1".to_string());

    config.normalize(&from_std(&config_dir)).unwrap();

    let manifest = manifest();
    let deps_path = config_dir.join("deps");
    assert_eq!(to_std(&config.deps_path), deps_path);
    assert_eq!(config.firecracker.binary_path, None);
    assert_eq!(config.kernel.image_path, None);
    assert_eq!(config.tools.drive_path, None);
    assert_eq!(
        to_std(&config.resolved_firecracker_binary_path(&manifest)),
        deps_path.join("firecracker/fc-test/firecracker")
    );
    assert_eq!(
        to_std(&config.resolved_kernel_image_path(&manifest)),
        deps_path.join("kernel/kernel-test/vmlinux.bin")
    );
    assert_eq!(
        to_std(&config.resolved_tools_drive_path(&manifest).unwrap()),
        deps_path.join("tools/1.2.3-custom.1/tools.ext4")
    );
    assert!(config
        .resolved_tools_drive_path_for_version("../escape")
        .is_err());
    assert!(config
        .resolved_tools_drive_path_for_version("1.2.3+rebuilt")
        .is_err());
}

#[test]
fn tools_versions_are_rejected_with_their_reason() {
    let config = AppConfig::default();
    let err = config
        .resolved_tools_drive_path_for_version("../escape")
        .unwrap_err();
    assert_eq!(
        err.message(),
        "invalid tools drive version '../escape': expected SemVer without build metadata: unexpected character '.' while parsing major version number"
    );
    let err = config
        .resolved_tools_drive_path_for_version("1.2.3+rebuilt")
        .unwrap_err();
    assert_eq!(
        err.message(),
        "invalid tools drive version '1.2.3+rebuilt': build metadata is not supported"
    );
    assert!(config.resolved_tools_drive_path_for_version("1.2").is_err());
    assert!(config.resolved_tools_drive_path_for_version("").is_err());
    assert!(config
        .resolved_tools_drive_path_for_version("1.2.3/../..")
        .is_err());
    for version in ["0.1.0", "10.20.30", "1.0.0-rc.1", "1.2.3----RC-SNAPSHOT.12.9.1"] {
        let path = config
            .resolved_tools_drive_path_for_version(version)
            .unwrap();
        assert_eq!(
            path.to_text().unwrap(),
            format!("$AENV_HOME/deps/tools/{version}/tools.ext4")
        );
    }
}

#[test]
fn managed_dependency_paths_select_the_active_mode_versions() {
    let manifest = manifest();
    let mut config = AppConfig {
        deps_path: fs("/deps"),
        virtualization_mode: VirtualizationMode::Kvm,
        ..Default::default()
    };
    assert_eq!(
        to_std(&config.resolved_firecracker_binary_path(&manifest)),
        PathBuf::from("/deps/firecracker")
            .join(&manifest.firecracker.kvm.version)
            .join("firecracker")
    );
    assert_eq!(
        to_std(&config.resolved_kernel_image_path(&manifest)),
        PathBuf::from("/deps/kernel")
            .join(&manifest.kernel.kvm.version)
            .join("vmlinux.bin")
    );

    config.virtualization_mode = VirtualizationMode::Pvm;
    assert_eq!(
        to_std(&config.resolved_firecracker_binary_path(&manifest)),
        PathBuf::from("/deps/firecracker")
            .join(&manifest.firecracker.pvm.version)
            .join("firecracker")
    );
    assert_eq!(
        to_std(&config.resolved_kernel_image_path(&manifest)),
        PathBuf::from("/deps/kernel")
            .join(&manifest.kernel.pvm.version)
            .join("vmlinux.bin")
    );
}

#[test]
fn helper_and_registry_client_are_below_the_dependencies() {
    let manifest = manifest();
    let config = AppConfig {
        deps_path: fs("/deps"),
        ..Default::default()
    };
    assert_eq!(
        to_std(&config.cpu_template_helper_path(&manifest)),
        PathBuf::from("/deps/firecracker/fc-kvm/cpu-template-helper")
    );
    assert_eq!(config.resolved_cpu_template_helper(&manifest, false), None);
    assert_eq!(
        opt_std(&config.resolved_cpu_template_helper(&manifest, true)),
        Some(PathBuf::from("/deps/firecracker/fc-kvm/cpu-template-helper"))
    );
    assert_eq!(
        to_std(&config.resolved_regctl_binary(&manifest)),
        PathBuf::from("/deps/regctl/v0.11.5/regctl")
    );
    assert_eq!(
        to_std(&regctl_path(&fs("/other"), &manifest)),
        PathBuf::from("/other/regctl/v0.11.5/regctl")
    );
}

#[test]
fn home_relative_toml_values_derive_from_home_path() {
    let temp = tempdir().unwrap();
    let config_dir = temp.path().join("configs");
    let mut config = AppConfig {
        home_path: fs("./env"),
        runtime_path: fs("$AENV_HOME/run"),
        deps_path: fs("$AENV_HOME/deps"),
        ..Default::default()
    };
    config.ublk.daemon_socket_path = fs("$AENV_RUNTIME/ublk-daemon.sock");
    config.firecracker.serial_dir = Some(fs("$AENV_HOME/logs/serial"));
    config.image.cache.root_dir = fs("$AENV_HOME/image-cache");
    config.snapshot.local_cache_path = fs("$AENV_HOME/snapshot-local-cache");
    config.p2p.store_dir = fs("$AENV_HOME/p2p/store");
    config.ublk.overlaybd.global_config_path = fs("$AENV_HOME/overlaybd/overlaybd-global.json");
    config.memory_snapshot.overlaybd_global_config_path =
        fs("$AENV_HOME/overlaybd/mem-overlaybd-global.json");
    config.normalize(&from_std(&config_dir)).unwrap();

    let home_path = config_dir.join("env");
    assert_eq!(to_std(&config.runtime_path), home_path.join("run"));
    assert_eq!(
        to_std(&config.ublk.daemon_socket_path),
        home_path.join("run/ublk-daemon.sock")
    );
    assert_eq!(
        opt_std(&config.firecracker.serial_dir),
        Some(home_path.join("logs/serial"))
    );
    assert_eq!(to_std(&config.deps_path), home_path.join("deps"));
    assert_eq!(
        to_std(&config.image.cache.root_dir),
        home_path.join("image-cache")
    );
    assert_eq!(
        to_std(&config.snapshot.local_cache_path),
        home_path.join("snapshot-local-cache")
    );
    assert_eq!(
        to_std(&config.p2p.store_dir),
        home_path.join("p2p").join("store")
    );
    assert_eq!(
        to_std(&config.ublk.overlaybd.global_config_path),
        home_path.join("overlaybd").join("overlaybd-global.json")
    );
    assert_eq!(
        to_std(&config.memory_snapshot.overlaybd_global_config_path),
        home_path
            .join("overlaybd")
            .join("mem-overlaybd-global.json")
    );
}

#[test]
fn compile_time_defaults_derive_from_home_path() {
    let temp = tempdir().unwrap();
    let config_dir = temp.path().join("configs");
    let mut config = AppConfig {
        home_path: fs("./env"),
        ..Default::default()
    };
    config.normalize(&from_std(&config_dir)).unwrap();

    let home_path = config_dir.join("env");
    assert_eq!(to_std(&config.runtime_path), PathBuf::from("/run/aenv"));
    assert_eq!(to_std(&config.deps_path), home_path.join("deps"));
    assert_eq!(
        opt_std(&config.firecracker.work_dir),
        Some(home_path.join("firecracker-work"))
    );
    assert_eq!(
        opt_std(&config.firecracker.serial_dir),
        Some(home_path.join("logs/serial"))
    );
    assert_eq!(
        to_std(&config.image.cache.root_dir),
        home_path.join("image-cache")
    );
    assert_eq!(
        to_std(&config.snapshot.local_cache_path),
        home_path.join("snapshot-local-cache")
    );
    assert_eq!(to_std(&config.p2p.store_dir), home_path.join("p2p/store"));
    assert_eq!(
        to_std(&config.ublk.overlaybd.global_config_path),
        home_path.join("overlaybd/overlaybd-global.json")
    );
    assert_eq!(
        to_std(&config.memory_snapshot.overlaybd_global_config_path),
        home_path.join("overlaybd/mem-overlaybd-global.json")
    );
    assert_eq!(
        to_std(&config.orchestrator.persisted_sandbox_store_path),
        home_path.join("persisted-sandboxes")
    );
    assert_eq!(
        to_std(&config.backend.posix_fs.as_ref().unwrap().snapshot_store),
        home_path.join("snapshot-store")
    );
    assert_eq!(
        opt_std(&config.ublk.daemon_binary_path),
        Some(home_path.join("ublk/uvm-ublk-daemon"))
    );
    assert_eq!(
        to_std(&config.ublk.daemon_socket_path),
        PathBuf::from("/run/aenv/ublk-daemon.sock")
    );
    assert_eq!(
        opt_std(&config.ublk.daemon_log_path),
        Some(home_path.join("logs/ublk-daemon.log"))
    );
}

#[test]
fn normalizing_twice_changes_nothing() {
    let mut config = AppConfig {
        home_path: fs("./env"),
        ..Default::default()
    };
    config.sandbox_proxy.domains = vec![" B.example. ".to_string(), "a.example".to_string()];
    config.cluster.scheduler_endpoint = Some(" http://scheduler ".to_string());
    config.normalize(&fs("/etc/aenv")).unwrap();
    let first = format!("{config:?}");
    config.normalize(&fs("/somewhere/else")).unwrap();
    assert_eq!(format!("{config:?}"), first);
}

#[test]
fn paths_that_are_no_text_have_no_placeholder() {
    let raw = FsPath {
        bytes: b"$AENV_HOME/\xff".to_vec(),
    };
    let resolved = resolve_path(&fs("/home"), &fs("/etc"), &raw);
    assert_eq!(resolved.bytes, b"/etc/$AENV_HOME/\xff".to_vec());
    let resolved = resolve_runtime_path(&fs("/home"), &fs("/run"), &fs("/etc"), &raw);
    assert_eq!(resolved.bytes, b"/etc/$AENV_HOME/\xff".to_vec());

    let home = FsPath {
        bytes: b"/h\xff".to_vec(),
    };
    assert_eq!(
        resolve_path(&home, &fs("/etc"), &fs("$AENV_HOME/x"))
            .to_text()
            .unwrap(),
        "/h\u{fffd}/x"
    );
}

#[test]
fn runtime_placeholder_is_replaced_after_home_placeholder() {
    assert_eq!(
        resolve_runtime_path(
            &fs("/home"),
            &fs("/run"),
            &fs("/etc"),
            &fs("$AENV_RUNTIME/a$AENV_HOME")
        )
        .to_text()
        .unwrap(),
        "/run/a/home"
    );
    assert_eq!(
        resolve_relative_to(&fs("/etc"), &fs("x"))
            .to_text()
            .unwrap(),
        "/etc/x"
    );
    assert_eq!(
        resolve_relative_to(&fs("/etc/"), &fs("/x"))
            .to_text()
            .unwrap(),
        "/x"
    );
}

#[test]
fn environment_values_are_trimmed() {
    assert_eq!(
        parse_required_path("  /var/lib \n").to_text().unwrap(),
        "/var/lib"
    );
    assert_eq!(parse_trimmed_string("\u{3000}a b\u{a0}"), "a b");
    assert_eq!(ENV_CONFIG_PATH, "AENV_CONFIG_PATH");
}

#[test]
fn sandbox_proxy_domains_are_normalized() {
    let mut config = SandboxProxyConfig {
        domains: vec![
            " Sandbox.Example.Invalid. ".to_string(),
            "sandbox.example.invalid".to_string(),
            "".to_string(),
            "old.example.invalid".to_string(),
        ],
    };
    config.normalize().unwrap();

    assert_eq!(
        config.domains,
        vec!["sandbox.example.invalid", "old.example.invalid"]
    );
}

#[test]
fn sandbox_proxy_domains_reject_invalid_domain() {
    let mut config = SandboxProxyConfig {
        domains: vec!["not a domain".to_string()],
    };
    let err = config.normalize().unwrap_err();
    assert!(
        err.message()
            .contains("sandbox_proxy.domains contains invalid domain"),
        "unexpected error: {}",
        err.message()
    );
    assert_eq!(
        err.message(),
        "sandbox_proxy.domains contains invalid domain \"not a domain\""
    );
    assert_eq!(config.domains, vec!["not a domain"]);
}

#[test]
fn domain_names_follow_host_name_rules() {
    assert_eq!(
        normalize_dns_name("A-1.Example").as_deref(),
        Some("a-1.example")
    );
    for bad in ["-a", "a-", "a..b", "", "a_b", "ä.example"] {
        assert_eq!(normalize_dns_name(bad), None, "{bad}");
    }
    let label = "a".repeat(63);
    assert_eq!(normalize_dns_name(&label), Some(label.clone()));
    assert_eq!(normalize_dns_name(&"a".repeat(64)), None);
    let long = vec![label.as_str(); 4].join(".");
    assert_eq!(long.len(), 255);
    assert_eq!(normalize_dns_name(&long), None);
}

#[test]
fn rejected_domain_still_resolves_paths() {
    let mut config = AppConfig::default();
    config.sandbox_proxy.domains = vec!["ok.example".to_string(), "not a domain".to_string()];
    let err = config.normalize(&fs("/etc/aenv")).unwrap_err();
    assert!(err.message().contains("\"not a domain\""));
    assert_eq!(
        to_std(&config.deps_path),
        PathBuf::from("/var/lib/aenv/deps")
    );
    assert_eq!(
        config.sandbox_proxy.domains,
        vec!["ok.example", "not a domain"]
    );
}

#[test]
fn cluster_normalize_trims_and_drops_blank_scheduler_endpoint() {
    let mut config = ClusterConfig {
        scheduler_endpoint: Some("  ".to_string()),
    };
    config.normalize();
    assert_eq!(config.scheduler_endpoint, None);

    let mut config = ClusterConfig {
        scheduler_endpoint: Some("  http://scheduler:9090  ".to_string()),
    };
    config.normalize();
    assert_eq!(
        config.scheduler_endpoint.as_deref(),
        Some("http://scheduler:9090")
    );
}

#[test]
fn validate_accepts_custom_network_config() {
    let config = NetworkConfig {
        egress: NetworkEgressConfig {
            always_denied_cidrs: vec!["127.0.0.0/8".to_string(), "169.254.0.0/16".to_string()],
        },
        internal: NetworkInternalConfig {
            host_interaction_cidr: "100.64.0.0/16".to_string(),
            veth_cidr: "100.65.0.0/16".to_string(),
        },
    };

    NetworkConfig::validate(&config).unwrap();
}

#[test]
fn validate_rejects_what_is_no_network() {
    for bad in [
        "", "127.0.0.1", "127.0.0.0/33", "256.0.0.0/8", "1.2.3/8", "1.2.3.4.5/8", "1.2.3.04/8",
        "a.b.c.d/8", "1.2.3.4/8/9",
    ] {
        let mut config = AppConfig::default();
        config.network.egress.always_denied_cidrs = vec!["10.0.0.0/8".to_string(), bad.to_string()];
        assert_eq!(
            validate(&config).unwrap_err().message(),
            format!("invalid network config: not an IPv4 CIDR: '{bad}'")
        );
    }
    let mut config = AppConfig::default();
    config.network.internal.veth_cidr = "x".to_string();
    assert!(validate(&config).is_err());
    config.network.internal.host_interaction_cidr = "y".to_string();
    assert!(validate(&config).unwrap_err().message().contains("'y'"));
}

#[test]
fn normalize_posix_snapshot_store_from_backend_section() {
    let temp = tempdir().unwrap();
    let config_dir = temp.path().join("configs");
    let mut config = AppConfig::default();
    config.snapshot.repository_backend = SnapshotRepositoryBackendKind::PosixFs;
    config.snapshot.local_cache_path = fs("./snapshot-local-cache");
    config.backend.posix_fs = Some(PosixFsBackendConfig {
        snapshot_store: fs("./snapshot-store"),
    });
    config.normalize(&from_std(&config_dir)).unwrap();

    assert_eq!(
        config
            .backend
            .posix_fs
            .as_ref()
            .map(|cfg| to_std(&cfg.snapshot_store)),
        Some(config_dir.join("./snapshot-store"))
    );
    assert_eq!(
        to_std(&config.backend.posix_fs.as_ref().unwrap().snapshot_store),
        config_dir.join("./snapshot-store")
    );
    assert_eq!(
        to_std(&config.snapshot.local_cache_path),
        config_dir.join("./snapshot-local-cache")
    );
}

#[test]
fn oss_backend_leaves_the_posix_store_alone() {
    let mut config = AppConfig::default();
    config.snapshot.repository_backend = SnapshotRepositoryBackendKind::Oss;
    config.normalize(&fs("/etc/aenv")).unwrap();
    assert!(config.backend.posix_fs.is_none());

    config.backend.posix_fs = Some(PosixFsBackendConfig::default());
    config.normalize(&fs("/etc/aenv")).unwrap();
    assert_eq!(
        config.backend.posix_fs.unwrap().snapshot_store,
        fs("$AENV_HOME/snapshot-store")
    );
}

#[test]
fn resolve_config_path_keeps_absolute_paths_unchanged() {
    let absolute = fs("/tmp/agentenv-absolute");
    assert_eq!(
        resolve_path(&fs("/ignored-home"), &fs("/ignored"), &absolute),
        absolute
    );
}

#[test]
fn validate_pool_config_rejects_invalid_values() {
    let config = AppConfig {
        pool: PoolTomlConfig {
            low_watermark: 64,
            high_watermark: 32,
            ..PoolTomlConfig::default()
        },
        ..AppConfig::default()
    };
    let err = config.validate_pool_config().unwrap_err();
    assert!(
        err.message().contains("low_watermark"),
        "unexpected error: {}",
        err.message()
    );
    assert_eq!(
        err.message(),
        "invalid network pool config: low_watermark (64) must be <= high_watermark (32)"
    );

    let config = AppConfig {
        pool: PoolTomlConfig {
            low_watermark: 64,
            high_watermark: 32,
            network: PoolComponentConfig {
                maintenance_enabled: false,
                ..PoolComponentConfig::default()
            },
            block: PoolComponentConfig {
                enabled: false,
                ..PoolComponentConfig::default()
            },
            firecracker: FirecrackerProcessPoolConfig {
                enabled: false,
                ..FirecrackerProcessPoolConfig::default()
            },
        },
        ..AppConfig::default()
    };
    assert!(config.validate_pool_config().is_ok());
}

#[test]
fn firecracker_pool_fill_concurrency_rejects_zero() {
    let config = AppConfig {
        pool: PoolTomlConfig {
            firecracker: FirecrackerProcessPoolConfig {
                enabled: true,
                fill_concurrency: 0,
                ..FirecrackerProcessPoolConfig::default()
            },
            ..PoolTomlConfig::default()
        },
        ..AppConfig::default()
    };

    let err = config.validate_pool_config().unwrap_err();
    assert!(
        err.message().contains("fill_concurrency"),
        "unexpected error: {}",
        err.message()
    );
}

#[test]
fn warm_pools_follow_their_switches() {
    let mut config = AppConfig::default();
    let network = config.network_pool_config();
    assert!(network.maintenance_enabled);
    assert_eq!((network.low_watermark, network.high_watermark), (2, 64));
    let block = config.block_pool_config().unwrap();
    assert!(!block.maintenance_enabled);
    assert!(block.startup_prewarm);
    assert_eq!(config.firecracker_pool_config().unwrap().fill_concurrency, 4);

    config.pool.network.enabled = false;
    assert!(!config.network_pool_config().maintenance_enabled);
    config.pool.block.enabled = false;
    assert!(config.block_pool_config().is_none());
    config.pool.firecracker.enabled = false;
    assert!(config.firecracker_pool_config().is_none());
}

#[test]
fn validate_rejects_zero_overlaybd_resize_timeout() {
    let mut config = AppConfig::default();
    config.ublk.overlaybd.resize_timeout_secs = 0;
    let err = validate(&config).unwrap_err();
    assert!(
        err.message().contains("resize_timeout_secs must be > 0"),
        "unexpected error: {}",
        err.message()
    );
}

#[test]
fn validate_rejects_invalid_image_gc_watermarks() {
    let mut config = AppConfig::default();
    config.image.cache.gc.high_watermark_ratio = Ratio {
        bits: 1.2f64.to_bits(),
    };
    let err = validate(&config).unwrap_err();
    assert!(
        err.message().contains("high_watermark_ratio"),
        "unexpected error: {}",
        err.message()
    );

    let mut config = AppConfig::default();
    config.image.cache.gc.high_watermark_ratio = Ratio {
        bits: 0.5f64.to_bits(),
    };
    config.image.cache.gc.low_watermark_ratio = Ratio {
        bits: 0.7f64.to_bits(),
    };
    let err = validate(&config).unwrap_err();
    assert!(
        err.message().contains("low_watermark_ratio"),
        "unexpected error: {}",
        err.message()
    );
}

#[test]
fn watermark_ratios_are_shares() {
    let gc = AppConfig::default().image.cache.gc;
    assert_eq!(f64::from_bits(gc.high_watermark_ratio.bits), 0.9);
    assert_eq!(f64::from_bits(gc.low_watermark_ratio.bits), 0.8);
    for bad in [0.0, -0.5, f64::NAN, f64::INFINITY, 1.0000000000000002] {
        let mut config = AppConfig::default();
        config.image.cache.gc.high_watermark_ratio = Ratio {
            bits: bad.to_bits(),
        };
        assert!(validate(&config)
            .unwrap_err()
            .message()
            .contains("high_watermark_ratio must be > 0 and <= 1"));
        let mut config = AppConfig::default();
        config.image.cache.gc.low_watermark_ratio = Ratio {
            bits: bad.to_bits(),
        };
        assert!(validate(&config)
            .unwrap_err()
            .message()
            .contains("low_watermark_ratio must be > 0 and <= 1"));
    }
    let mut config = AppConfig::default();
    config.image.cache.gc.high_watermark_ratio = Ratio {
        bits: 1.0f64.to_bits(),
    };
    assert!(validate(&config).is_ok());
}

#[test]
fn default_config_is_accepted_before_and_after_normalizing() {
    let mut config = AppConfig::default();
    assert!(validate(&config).is_ok());
    config.normalize(&fs("/etc/aenv")).unwrap();
    assert!(validate(&config).is_ok());
}

#[test]
fn config_manager_keeps_config_and_path() {
    let path = fs("/etc/aenv/config.toml");
    let (rootfs, memory) = ConfigManager::global_config_spellings(&path, &AppConfig::default());
    assert_eq!(
        rootfs.to_text().unwrap(),
        "/var/lib/aenv/overlaybd/overlaybd-global.json"
    );
    assert_eq!(
        memory.to_text().unwrap(),
        "/var/lib/aenv/overlaybd/mem-overlaybd-global.json"
    );
    let manager = ConfigManager::new_from_path(&path, AppConfig::default(), &none()).unwrap();
    assert_eq!(manager.config_path(), Some(&path));
    assert_eq!(manager.config().machine.vcpu_count, 2);
    assert_eq!(
        to_std(&manager.config().deps_path),
        PathBuf::from("/var/lib/aenv/deps")
    );

    let mut config = AppConfig::default();
    config.ublk.overlaybd.resize_timeout_secs = 0;
    assert!(ConfigManager::new_from_path(&path, config, &none()).is_err());
}

#[test]
fn config_file_is_chosen_by_the_environment() {
    let dir = fs("/opt/aenv");
    assert_eq!(
        ConfigManager::select_config_path(Some(" /etc/a.toml ".to_string()), &dir),
        fs("/etc/a.toml")
    );
    for blank in [None, Some("  ".to_string())] {
        assert_eq!(
            ConfigManager::select_config_path(blank, &dir),
            fs("/opt/aenv/config/default.toml")
        );
    }
    let manager = ConfigManager::new(
        Some("/etc/a.toml".to_string()),
        &dir,
        AppConfig::default(),
        &none(),
    )
    .unwrap();
    assert_eq!(manager.config_path(), Some(&fs("/etc/a.toml")));
    assert_eq!(
        manager.config().deps_path.to_text().unwrap(),
        "/var/lib/aenv/deps"
    );
}

#[test]
fn manager_normalizes_before_it_accepts() {
    let path = fs("conf/a.toml");
    let mut config = AppConfig::default();
    config.home_path = fs("env");
    config.sandbox_proxy.domains = vec![" Example.COM. ".to_string()];
    let manager = ConfigManager::new_from_path(&path, config, &none()).unwrap();
    assert_eq!(manager.config().home_path.to_text().unwrap(), "conf/env");
    assert_eq!(manager.config().deps_path.to_text().unwrap(), "conf/conf/env/deps");
    assert_eq!(manager.config().sandbox_proxy.domains, vec!["example.com"]);

    let mut config = AppConfig::default();
    config.sandbox_proxy.domains = vec!["no domain".to_string()];
    config.ublk.overlaybd.resize_timeout_secs = 0;
    assert_eq!(
        ConfigManager::new_from_path(&path, config, &none())
            .unwrap_err()
            .message(),
        "sandbox_proxy.domains contains invalid domain \"no domain\""
    );

    let mut config = AppConfig::default();
    config.home_path = fs("/h");
    config.ublk.overlaybd.global_config_path = fs("/h/a/../g.json");
    config.memory_snapshot.overlaybd_global_config_path = fs("$AENV_HOME/g.json");
    let (rootfs, memory) = ConfigManager::global_config_spellings(&path, &config);
    assert_eq!(rootfs, memory);
    assert_eq!(
        ConfigManager::new_from_path(&path, config, &none())
            .unwrap_err()
            .message(),
        "ublk.overlaybd.global_config_path and memory_snapshot.overlaybd_global_config_path must be different"
    );
}

#[test]
fn relative_config_file_resolves_against_its_directory() {
    let mut config = AppConfig::default();
    config.home_path = fs("env");
    let prepared = ConfigManager::prepare(&fs("conf/a.toml"), config).unwrap();
    assert_eq!(prepared.home_path.to_text().unwrap(), "conf/env");
    let mut config = AppConfig::default();
    config.home_path = fs("env");
    let prepared = ConfigManager::prepare(&fs("/"), config).unwrap();
    assert_eq!(prepared.home_path.to_text().unwrap(), "./env");
}

#[test]
fn image_cache_layout_is_below_its_root() {
    let mut config = AppConfig::default();
    config.image.cache.root_dir = fs("/var/cache/images");
    config.image.cache.remote_blocks.max_size_gb = 7;
    let layout = config.image_cache_layout();
    assert_eq!(layout.remote_blocks_dir, fs("/var/cache/images/remote-blocks"));
    assert_eq!(layout.remote_blocks_size_gb, 7);
}

#[test]
fn tools_drive_follows_from_the_parsed_version() {
    let drive = |build: &str| {
        tools_drive_for(
            &fs("/deps"),
            "1.2.3",
            Ok(ParsedVersion {
                text: "1.2.3".to_string(),
                build: build.to_string(),
            }),
        )
    };
    assert_eq!(drive("").unwrap(), fs("/deps/tools/1.2.3/tools.ext4"));
    assert_eq!(
        drive("b").unwrap_err().message(),
        "invalid tools drive version '1.2.3': build metadata is not supported"
    );
    assert_eq!(
        tools_drive_for(&fs("/deps"), "x", Err("no".to_string()))
            .unwrap_err()
            .message(),
        "invalid tools drive version 'x': expected SemVer without build metadata: no"
    );
}
