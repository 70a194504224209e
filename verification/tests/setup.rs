use aenv::config::types::{
    AppConfig, MemorySnapshotConfig, OssBackendConfig, OverlaybdDependencyConfig,
    SnapshotRepositoryBackendKind, VirtualizationMode,
};
use aenv::failure::Failure;
use aenv::fs_path::FsPath;
use aenv::manifest::{
    ManifestDownload, ManifestVirtualizationDownloads, SetupDependencyManifest,
};
use aenv::setup::deps::{
    check_virtualization, detect_arch, file_exists_nonempty, plan_firecracker, plan_kernel,
    plan_regctl, plan_tools, resolve_url, tools_install_next, validate_explicit_file,
    verify_installed_tools_drive, version_output_mentions_exact_token, FileDigest, FileFacts,
    FirecrackerPlan, KernelPlan, RegctlPlan, ToolsInstall, ToolsPlan, VersionProbe, DRIVE_MODE,
};
use aenv::setup::download::{
    check_response, download_failed, plan_download, DownloadPlan, DownloadStep,
};
use aenv::setup::extract::{
    command_outcome, find_cpu_template_helper, find_firecracker_binary, ExtractStep,
    ImageExtraction,
};
use aenv::setup::global_config::{
    credential_request, docker_credential_candidates, generated_overlaybd_global_config,
    global_config_failed, global_config_targets, overlaybd_runtime_oss_config, wanted_credentials,
    CredentialSource, DownloadConfig, WriteStep, GLOBAL_CONFIG_MODE,
};
use aenv::setup::install::{
    begin_install, InstallEvent, InstallNext, InstallPlaces, InstallStage, TOOL_MODE,
};
use aenv::setup::release::{
    begin_swap, check_package_format, check_payload_config, check_payload_dir,
    check_payload_tool, configured_overlaybd_release, default_config_path, legacy_lib_action,
    plan_release, swap_step, system_config_failed, system_config_next, Destination, LegacyLib,
    LegacyLibAction, OverlaybdInstalledRelease, OverlaybdTool, ReleasePlan, SwapAction, SwapState,
    SystemConfigStep, ToolsOnDisk, SYSTEM_CONFIG_DIR_MODE, SYSTEM_CONFIG_MODE,
};

fn fs(text: &str) -> FsPath {
    FsPath::from_text(text)
}

fn text(path: &FsPath) -> String {
    path.to_text().unwrap()
}

fn failure(message: &str) -> Failure {
    Failure::new(message.to_string())
}

fn download(version: &str, url: &str) -> ManifestDownload {
    ManifestDownload {
        version: version.to_string(),
        url: url.to_string(),
    }
}

fn manifest() -> SetupDependencyManifest {
    SetupDependencyManifest {
        firecracker: ManifestVirtualizationDownloads {
            kvm: download("v1.0", "https://fc.invalid/{version}/fc-{version}-{arch}.tgz"),
            pvm: download("v1.0-pvm", "https://pvm.invalid/{version}"),
        },
        kernel: ManifestVirtualizationDownloads {
            kvm: download("6.1", "https://kernel.invalid/{arch}/{version}"),
            pvm: download("6.1-pvm", "https://pvm.invalid/{version}"),
        },
        tools: download("0.1.0", "ghcr.io/org/tools:{version}"),
        overlaybd: OverlaybdDependencyConfig {
            version: "v1.0.18-aenv.1".to_string(),
            url: None,
            package_url: None,
        },
        regclient: download("v0.11.5", "https://regctl.invalid/{version}/regctl-{arch}"),
    }
}

fn config() -> AppConfig {
    AppConfig {
        deps_path: fs("/deps"),
        ..AppConfig::default()
    }
}

fn file(len: u64, mode: u32) -> FileFacts {
    FileFacts {
        is_file: true,
        len,
        mode,
    }
}

fn defaults() -> DownloadConfig {
    DownloadConfig {
        enable: false,
        delay: 300,
        delay_extra: 30,
        max_mbps: 100,
        try_cnt: 5,
        block_size: 262144,
        concurrency: 1,
        max_inflight_blocks: 8,
        max_concurrent_files: 3,
    }
}

fn sample_oss_config() -> OssBackendConfig {
    OssBackendConfig {
        endpoint: " https://oss-cn-hangzhou.aliyuncs.com ".to_string(),
        bucket: " demo-bucket ".to_string(),
        prefix: Some(" snapshots ".to_string()),
        credential_process: None,
        access_key_id: Some(" ak ".to_string()),
        access_key_secret: Some(" sk ".to_string()),
        security_token: Some(" token ".to_string()),
        region: Some(" cn-hangzhou ".to_string()),
        cache_max_size_gb: Some(4),
    }
}

fn static_source() -> CredentialSource {
    CredentialSource::Static {
        access_key_id: "ak".to_string(),
        secret_access_key: "sk".to_string(),
        security_token: Some("token".to_string()),
    }
}

#[test]
fn overlaybd_runtime_oss_config_uses_normalized_semantics() {
    let config = overlaybd_runtime_oss_config(&sample_oss_config(), Ok(static_source()))
        .expect("derive overlaybd oss config");

    assert_eq!(config.access_key_id, "ak");
    assert_eq!(config.secret_access_key, "sk");
    assert_eq!(config.security_token, "token");
    assert_eq!(config.credential_process, "");
    assert_eq!(config.default_region, "cn-hangzhou");
    assert_eq!(
        config.default_endpoint,
        "https://oss-cn-hangzhou.aliyuncs.com"
    );
    assert!(config.enable);
}

#[test]
fn credentials_are_asked_for_by_field() {
    let mut oss = sample_oss_config();
    oss.access_key_id = Some("id".to_string());
    oss.access_key_secret = Some("secret".to_string());
    oss.security_token = Some("token".to_string());
    oss.credential_process = Some("run".to_string());
    let request = credential_request(&oss);
    assert_eq!(request.access_key_id.as_deref(), Some("id"));
    assert_eq!(request.secret_access_key.as_deref(), Some("secret"));
    assert_eq!(request.security_token.as_deref(), Some("token"));
    assert_eq!(request.credential_process.as_deref(), Some("run"));
    assert_eq!(request.scope, "backend.oss");
    assert!(!request.allow_anonymous);
    assert_eq!(request.required_access_key_id_label, "backend.oss.access_key_id");
    assert_eq!(
        request.required_secret_access_key_label,
        "backend.oss.access_key_secret"
    );

    let mut config = AppConfig::default();
    config.backend.oss = Some(oss);
    config.snapshot.repository_backend = SnapshotRepositoryBackendKind::PosixFs;
    assert!(wanted_credentials(&config).is_none());
    config.snapshot.repository_backend = SnapshotRepositoryBackendKind::Oss;
    assert!(wanted_credentials(&config).is_some());
    config.backend.oss = None;
    assert!(wanted_credentials(&config).is_none());
}

#[test]
fn overlaybd_runtime_oss_config_rejects_blank_static_credentials() {
    let mut oss = sample_oss_config();
    oss.access_key_id = Some("   ".to_string());

    let request = credential_request(&oss);
    assert_eq!(request.access_key_id.as_deref(), Some("   "));
    let refused = failure(&format!(
        "{} must be set",
        request.required_access_key_id_label
    ));
    let err = overlaybd_runtime_oss_config(&oss, Err(refused))
        .expect_err("blank static credential should fail");
    assert!(err.message().contains("backend.oss.access_key_id"));
}

#[test]
fn overlaybd_runtime_oss_config_uses_credential_process_when_configured() {
    let mut oss = sample_oss_config();
    oss.access_key_id = None;
    oss.access_key_secret = None;
    oss.security_token = None;
    oss.credential_process = Some("echo creds".to_string());
    let source = CredentialSource::Process {
        command: "echo creds".to_string(),
    };

    let config = overlaybd_runtime_oss_config(&oss, Ok(source)).expect("derive overlaybd oss config");
    assert_eq!(config.access_key_id, "");
    assert_eq!(config.credential_process, "echo creds");
}

#[test]
fn oss_access_needs_credentials_and_a_region() {
    let mut oss = sample_oss_config();
    let err = overlaybd_runtime_oss_config(&oss, Err(failure("backend.oss.access_key_id is blank")))
        .unwrap_err();
    assert_eq!(err.message(), "backend.oss.access_key_id is blank");
    let err = overlaybd_runtime_oss_config(&oss, Ok(CredentialSource::Anonymous)).unwrap_err();
    assert_eq!(
        err.message(),
        "backend.oss requires non-anonymous credentials"
    );
    for region in [None, Some("  ".to_string())] {
        oss.region = region;
        let err = overlaybd_runtime_oss_config(&oss, Ok(CredentialSource::Anonymous)).unwrap_err();
        assert_eq!(
            err.message(),
            "backend.oss.region must be set when generating overlaybd OSS config"
        );
    }
}

#[test]
fn regctl_version_match_uses_exact_token() {
    assert!(version_output_mentions_exact_token(
        "VCSTag:     v0.11.5\n",
        "v0.11.5"
    ));
    assert!(!version_output_mentions_exact_token(
        "VCSTag:     v0.11.55\n",
        "v0.11.5"
    ));
}

#[test]
fn registry_client_is_downloaded_unless_pinned() {
    let probe = |success, out: &str| {
        Some(VersionProbe {
            success,
            stdout: fs(out),
        })
    };
    let plan = |probe, arch| plan_regctl(&fs("/deps"), &manifest(), arch, &probe);
    assert!(matches!(
        plan(probe(true, "VCSTag: v0.11.5\n"), "riscv64").unwrap(),
        RegctlPlan::Pinned
    ));
    for stale in [None, probe(false, "v0.11.5"), probe(true, "v0.11.50")] {
        match plan(stale, "aarch64").unwrap() {
            RegctlPlan::Download { url, path } => {
                assert_eq!(url, "https://regctl.invalid/v0.11.5/regctl-arm64");
                assert_eq!(text(&path), "/deps/regctl/v0.11.5/regctl");
            }
            other => panic!("unexpected plan: {other:?}"),
        }
    }
    match plan(None, "x86_64").unwrap() {
        RegctlPlan::Download { url, .. } => assert!(url.ends_with("regctl-amd64")),
        other => panic!("unexpected plan: {other:?}"),
    }
    assert_eq!(
        plan(None, "riscv64").unwrap_err().message(),
        "unsupported architecture for regctl: riscv64"
    );
}

#[test]
fn explicit_tools_drive_is_imported_into_its_version_directory() {
    let mut config = config();
    config.firecracker.binary_path = Some(fs("/local/firecracker"));
    config.kernel.image_path = Some(fs("/local/vmlinux"));
    config.tools.drive_path = Some(fs("/local/tools.ext4"));
    config.tools.version = Some("0.1.0".to_string());

    match plan_firecracker(&config, &manifest(), "x86_64", None).unwrap() {
        FirecrackerPlan::Validate { path } => assert_eq!(text(&path), "/local/firecracker"),
        other => panic!("unexpected plan: {other:?}"),
    }
    match plan_kernel(&config, &manifest(), "x86_64", None) {
        KernelPlan::Validate { path } => assert_eq!(text(&path), "/local/vmlinux"),
        other => panic!("unexpected plan: {other:?}"),
    }
    match plan_tools(&config, &fs("/deps"), &manifest(), None).unwrap() {
        ToolsPlan::Install {
            source,
            destination,
            version,
        } => {
            assert_eq!(text(&source), "/local/tools.ext4");
            assert_eq!(text(&destination), "/deps/tools/0.1.0/tools.ext4");
            assert_eq!(version, "0.1.0");
        }
        other => panic!("unexpected plan: {other:?}"),
    }
    assert_eq!(DRIVE_MODE, 0o644);
    assert_eq!(
        tools_install_next(ToolsInstall::Look, false),
        ToolsInstall::Persist
    );
    assert_eq!(
        tools_install_next(ToolsInstall::Persist, false),
        ToolsInstall::Done
    );
}

#[test]
fn explicit_tools_drive_version_cannot_be_reused_for_different_content() {
    let digest = |d: &str| FileDigest {
        digest: d.to_string(),
        size: 6,
    };
    assert_eq!(
        tools_install_next(ToolsInstall::Look, true),
        ToolsInstall::Verify
    );
    assert_eq!(
        tools_install_next(ToolsInstall::Persist, true),
        ToolsInstall::Verify
    );
    let verify = |a: FileDigest, b: FileDigest| {
        verify_installed_tools_drive(&fs("/src"), &fs("/dst"), "0.1.0", &a, &b)
    };
    assert!(verify(digest("first"), digest("first")).is_ok());
    let error = verify(digest("second"), digest("first"))
        .expect_err("reusing a version for different content must fail");
    assert!(error.message().contains("publish a new version"));
    assert_eq!(
        error.message(),
        "tools drive version '0.1.0' from /src conflicts with the installed file at /dst; publish a new version"
    );
    let shorter = FileDigest {
        digest: "first".to_string(),
        size: 5,
    };
    assert!(verify(digest("first"), shorter).is_err());
}

#[test]
fn tools_url_override_requires_explicit_version_before_cache_hit() {
    let mut config = config();
    config.tools.url = Some("registry.example.com/custom/tools:{version}".to_string());

    let error = plan_tools(&config, &fs("/deps"), &manifest(), Some(file(12, 0o644)))
        .expect_err("custom tools URL must declare its release version");

    assert!(error
        .message()
        .contains("tools.version is required when tools.drive_path or tools.url is configured"));

    config.tools.version = Some("bad".to_string());
    assert!(plan_tools(&config, &fs("/deps"), &manifest(), None)
        .unwrap_err()
        .message()
        .starts_with("invalid tools drive version 'bad'"));
    config.tools.version = Some("2.0.0".to_string());
    match plan_tools(&config, &fs("/deps"), &manifest(), None).unwrap() {
        ToolsPlan::Extract {
            image,
            regctl,
            dir,
            destination,
        } => {
            assert_eq!(image, "registry.example.com/custom/tools:2.0.0");
            assert_eq!(text(&regctl), "/deps/regctl/v0.11.5/regctl");
            assert_eq!(text(&dir), "/deps/tools/2.0.0");
            assert_eq!(text(&destination), "/deps/tools/2.0.0/tools.ext4");
        }
        other => panic!("unexpected plan: {other:?}"),
    }
    assert!(matches!(
        plan_tools(&config, &fs("/deps"), &manifest(), Some(file(1, 0))).unwrap(),
        ToolsPlan::Present
    ));
}

#[test]
fn explicit_dependency_validation_rejects_invalid_files() {
    let check = |key: &str, path: &str, executable, facts: Result<FileFacts, String>| {
        validate_explicit_file(key, &fs(path), executable, facts, Ok(()))
    };
    let err = check("kernel.image_path", "/missing", false, Err("gone".to_string()))
        .expect_err("missing file must fail");
    assert!(err.message().contains("kernel.image_path"));
    assert!(err.message().contains("/missing"));

    let directory = FileFacts {
        is_file: false,
        len: 4096,
        mode: 0o755,
    };
    let err = check("tools.drive_path", "/directory", false, Ok(directory))
        .expect_err("directory must fail");
    assert!(err.message().contains("not a regular file"));

    let err = check("kernel.image_path", "/empty", false, Ok(file(0, 0o644)))
        .expect_err("empty file must fail");
    assert!(err.message().contains("is an empty file"));

    let err = check(
        "firecracker.binary_path",
        "/firecracker",
        true,
        Ok(file(11, 0o644)),
    )
    .expect_err("non-executable firecracker must fail");
    assert!(err.message().contains("is not executable"));

    let err = validate_explicit_file(
        "kernel.image_path",
        &fs("/secret"),
        false,
        Ok(file(1, 0)),
        Err("denied".to_string()),
    )
    .unwrap_err();
    assert_eq!(
        err.message(),
        "kernel.image_path is not readable: /secret: denied"
    );
    assert!(check("k", "/p", true, Ok(file(1, 0o010))).is_ok());
    assert!(check("k", "/p", false, Ok(file(1, 0))).is_ok());
}

#[test]
fn nonempty_file_check_rejects_directories_and_empty_files() {
    let directory = FileFacts {
        is_file: false,
        len: 4096,
        mode: 0o755,
    };
    assert!(!file_exists_nonempty(Some(directory)));
    assert!(!file_exists_nonempty(Some(file(0, 0o644))));
    assert!(file_exists_nonempty(Some(file(4, 0o644))));
    assert!(!file_exists_nonempty(None));
}

#[test]
fn addresses_are_expanded_in_order() {
    assert_eq!(
        resolve_url("{a}-{b}-{a}", &vec![("a", "{b}"), ("b", "x")]),
        "x-x-x"
    );
    assert_eq!(resolve_url("{c}", &vec![("a", "1")]), "{c}");
    match plan_firecracker(&config(), &manifest(), "x86_64", Some(file(0, 0))).unwrap() {
        FirecrackerPlan::Download {
            url,
            archive,
            binary,
            helper,
        } => {
            assert_eq!(url, "https://fc.invalid/v1.0/fc-v1.0-x86_64.tgz");
            assert_eq!(
                text(&archive),
                "/deps/firecracker/v1.0/firecracker-v1.0-x86_64.tgz"
            );
            assert_eq!(text(&binary), "/deps/firecracker/v1.0/firecracker");
            assert_eq!(text(&helper), "/deps/firecracker/v1.0/cpu-template-helper");
        }
        other => panic!("unexpected plan: {other:?}"),
    }
    assert!(matches!(
        plan_firecracker(&config(), &manifest(), "x86_64", Some(file(1, 0))).unwrap(),
        FirecrackerPlan::Present
    ));
    match plan_kernel(&config(), &manifest(), "aarch64", None) {
        KernelPlan::Download { url, path } => {
            assert_eq!(url, "https://kernel.invalid/aarch64/6.1");
            assert_eq!(text(&path), "/deps/kernel/6.1/vmlinux.bin");
        }
        other => panic!("unexpected plan: {other:?}"),
    }
}

#[test]
fn hosts_are_checked() {
    assert_eq!(detect_arch("x86_64").unwrap(), "x86_64");
    assert_eq!(detect_arch("aarch64").unwrap(), "aarch64");
    assert_eq!(
        detect_arch("mips").unwrap_err().message(),
        "unsupported architecture: mips"
    );
    assert!(check_virtualization(VirtualizationMode::Kvm, "aarch64").is_ok());
    assert!(check_virtualization(VirtualizationMode::Pvm, "x86_64").is_ok());
    assert_eq!(
        check_virtualization(VirtualizationMode::Pvm, "aarch64")
            .unwrap_err()
            .message(),
        "PVM virtualization mode is only supported on x86_64 hosts"
    );
}

#[test]
fn downloads_are_renamed_into_place() {
    assert!(matches!(
        plan_download(&fs("/d/a.tgz"), Some(file(3, 0))),
        DownloadPlan::Present
    ));
    match plan_download(&fs("/d/a.tgz"), None) {
        DownloadPlan::Fetch { dir, temp } => {
            assert_eq!(text(&dir.unwrap()), "/d");
            assert_eq!(text(&temp), "/d/a.tmp");
        }
        other => panic!("unexpected plan: {other:?}"),
    }
    assert!(check_response(true, "200 OK", "u").is_ok());
    assert_eq!(
        check_response(false, "404 Not Found", "https://x")
            .unwrap_err()
            .message(),
        "HTTP 404 Not Found for https://x"
    );
    let cases = [
        (DownloadStep::MakeDir, "c"),
        (DownloadStep::Request, "GET u: c"),
        (DownloadStep::ReadBody, "reading response body: c"),
        (DownloadStep::WriteTemp, "c"),
        (
            DownloadStep::Rename,
            "moving downloaded file to destination: c",
        ),
    ];
    for (step, message) in cases {
        assert_eq!(download_failed(step, "u", failure("c")).message(), message);
    }
}

#[test]
fn archive_programs_are_found_by_name() {
    let files = vec![
        fs("/t/r/firecracker-v1.debug"),
        fs("/t/r/jailer-firecracker"),
        fs("/t/r/firecracker_spec.yaml"),
        fs("/t/r/rebase-snap-firecracker"),
        fs("/t/r/cpu-template-helper-v1.debug"),
        fs("/t/r/firecracker-v1-x86_64"),
        fs("/t/r/cpu-template-helper-v1"),
    ];
    assert_eq!(
        text(&find_firecracker_binary(&fs("/t"), true, &files).unwrap()),
        "/t/firecracker"
    );
    assert_eq!(
        text(&find_firecracker_binary(&fs("/t"), false, &files).unwrap()),
        "/t/r/firecracker-v1-x86_64"
    );
    assert_eq!(
        find_firecracker_binary(&fs("/t"), false, &vec![])
            .unwrap_err()
            .message(),
        "firecracker binary not found in /t"
    );
    assert_eq!(
        text(&find_cpu_template_helper(&files).unwrap()),
        "/t/r/cpu-template-helper-v1"
    );
    assert!(find_cpu_template_helper(&vec![]).is_none());
}

#[test]
fn file_is_extracted_from_an_image() {
    let extraction = ImageExtraction {
        regctl: fs("/deps/regctl"),
        image: "ghcr.io/org/tools:0.1.0".to_string(),
        filename: "tools.ext4".to_string(),
        destination: fs("/deps/tools.ext4"),
    };
    let temp = fs("/tmp/x");
    let copy = extraction.copy_call(&temp);
    assert_eq!(text(&copy.program), "/deps/regctl");
    assert_eq!(
        copy.args.iter().map(text).collect::<Vec<_>>(),
        vec![
            "image",
            "copy",
            "--platform",
            "local",
            "ghcr.io/org/tools:0.1.0",
            "ocidir:///tmp/x/oci:latest"
        ]
    );
    let unpack = extraction.unpack_call(&temp);
    assert_eq!(text(&unpack.program), "umoci");
    assert_eq!(
        unpack.args.iter().map(text).collect::<Vec<_>>(),
        vec![
            "unpack",
            "--rootless",
            "--image",
            "/tmp/x/oci:latest",
            "/tmp/x/bundle"
        ]
    );
    assert_eq!(text(&extraction.search_dir(&temp)), "/tmp/x/bundle/rootfs");
    assert_eq!(
        text(&extraction.locate(&temp, true, &vec![]).unwrap()),
        "/tmp/x/bundle/rootfs/tools.ext4"
    );
    let files = vec![fs("/tmp/x/bundle/rootfs/a/tools"), fs("/r/b/tools.ext4")];
    assert_eq!(
        text(&extraction.locate(&temp, false, &files).unwrap()),
        "/r/b/tools.ext4"
    );
    assert_eq!(
        extraction
            .locate(&temp, false, &vec![])
            .unwrap_err()
            .message(),
        "failed to find /tools.ext4 in image ghcr.io/org/tools:0.1.0"
    );

    let mut step = ExtractStep::CheckRegctl;
    let mut steps = 0;
    while step != ExtractStep::Done {
        step = extraction.after(step, Ok(())).unwrap();
        steps += 1;
    }
    assert_eq!(steps, 7);
    assert_eq!(
        extraction
            .after(ExtractStep::CheckRegctl, Err(failure("x")))
            .unwrap_err()
            .message(),
        "regctl is required to download container images: /deps/regctl"
    );
    assert_eq!(
        extraction
            .after(ExtractStep::FindUmoci, Err(failure("x")))
            .unwrap_err()
            .message(),
        "umoci is required to unpack container images: x"
    );
    assert_eq!(
        extraction
            .after(ExtractStep::MakeTempDir, Err(failure("x")))
            .unwrap_err()
            .message(),
        "failed to create temporary directory: x"
    );
    let args = vec![fs("image"), fs("copy")];
    assert!(command_outcome(&fs("/deps/regctl"), &args, true, &fs("warn")).is_ok());
    assert_eq!(
        command_outcome(&fs("/deps/regctl"), &args, false, &fs(" denied \n"))
            .unwrap_err()
            .message(),
        "/deps/regctl image failed: denied"
    );
    assert_eq!(
        command_outcome(&fs("x"), &vec![], false, &fs(""))
            .unwrap_err()
            .message(),
        "x  failed: "
    );
}

#[test]
fn generated_overlaybd_global_configs_use_distinct_download_defaults() {
    let mut config = config();
    config.ublk.overlaybd.global_config_path = fs("/c/overlaybd-global.json");
    config.memory_snapshot.overlaybd_global_config_path = fs("/c/mem-overlaybd-global.json");
    let (rootfs, memory) = global_config_targets(&config, &defaults());

    assert_eq!(text(&rootfs.path), "/c/overlaybd-global.json");
    assert!(!rootfs.download.enable);
    assert_eq!(rootfs.download.concurrency, 1);
    assert_eq!(rootfs.download, defaults());
    assert_eq!(text(&memory.path), "/c/mem-overlaybd-global.json");
    let expected_memory = MemorySnapshotConfig::default()
        .background_download
        .to_overlaybd_download_config(&defaults());
    assert_eq!(memory.download, expected_memory);
    assert_eq!(memory.download.max_mbps, 0);
    assert_eq!(memory.download.max_concurrent_files, 3);

    config.ublk.overlaybd.download_enable = true;
    let (rootfs, _) = global_config_targets(&config, &defaults());
    assert!(rootfs.download.enable);
}

#[test]
fn generated_memory_overlaybd_global_config_uses_explicit_download_overrides() {
    let mut config = config();
    config.memory_snapshot.background_download.enable = false;
    config.memory_snapshot.background_download.block_size = 2 * 1024 * 1024;
    config.memory_snapshot.background_download.concurrency = 7;

    let (_, memory) = global_config_targets(&config, &defaults());

    let expected_memory = DownloadConfig {
        enable: false,
        block_size: 2 * 1024 * 1024,
        concurrency: 7,
        ..MemorySnapshotConfig::default()
            .background_download
            .to_overlaybd_download_config(&defaults())
    };
    assert_eq!(memory.download, expected_memory);
}

#[test]
fn generated_overlaybd_p2p_config_enables_both_global_configs() {
    for path in ["/c/overlaybd-global.json", "/c/mem-overlaybd-global.json"] {
        let doc = generated_overlaybd_global_config(
            &fs(path),
            &config(),
            Some("http://127.0.0.1:12345/p2p-http"),
            &None,
            &defaults(),
            Ok(CredentialSource::Anonymous),
        )
        .expect("write p2p config");
        assert!(doc.p2p.enable);
        assert_eq!(doc.p2p.address, "http://127.0.0.1:12345/p2p-http");
        assert_eq!(doc.registry_fs_version, "v2");
    }
}

#[test]
fn generated_overlaybd_p2p_config_can_disable_facade() {
    for path in ["/c/overlaybd-global.json", "/c/mem-overlaybd-global.json"] {
        let doc = generated_overlaybd_global_config(
            &fs(path),
            &config(),
            None,
            &None,
            &defaults(),
            Ok(CredentialSource::Anonymous),
        )
        .expect("write p2p config");
        assert!(!doc.p2p.enable);
        assert_eq!(doc.p2p.address, "http://localhost:9731/accelerator");
    }
}

#[test]
fn global_config_holds_cache_log_and_credentials() {
    let mut config = config();
    config.image.cache.root_dir = fs("/cache");
    config.image.cache.remote_blocks.max_size_gb = 7;
    let doc = generated_overlaybd_global_config(
        &fs("/c/g.json"),
        &config,
        None,
        &Some(fs("/root/.docker/config.json")),
        &defaults(),
        Err(failure("not looked at")),
    )
    .unwrap();
    assert_eq!(text(&doc.log_path), "/c/overlaybd.log");
    assert_eq!(doc.log_level, 1);
    assert_eq!(text(&doc.cache_dir), "/cache/remote-blocks");
    assert_eq!(doc.cache_size_gb, 7);
    assert_eq!(doc.cache_type, "file");
    assert_eq!((doc.refill_size, doc.block_size), (262144, 65536));
    assert_eq!(doc.credential.mode, "file");
    assert_eq!(doc.credential.path, "/root/.docker/config.json");
    assert_eq!(doc.credential.timeout, 5);
    assert_eq!(doc.io_engine, 0);
    assert!(!doc.enable_audit);
    assert!(doc.oss.is_none());
    assert_eq!(GLOBAL_CONFIG_MODE, 0o600);

    let doc = generated_overlaybd_global_config(
        &fs("/"),
        &config,
        None,
        &None,
        &defaults(),
        Ok(static_source()),
    )
    .unwrap();
    assert_eq!(text(&doc.log_path), "./overlaybd.log");
    assert_eq!(doc.credential.mode, "");
    assert_eq!(doc.credential.path, "");
    assert_eq!(doc.credential.timeout, 1);
}

#[test]
fn global_config_needs_the_object_store_where_it_is_used() {
    let mut config = config();
    config.snapshot.repository_backend = SnapshotRepositoryBackendKind::Oss;
    let generate = |config: &AppConfig, source| {
        generated_overlaybd_global_config(&fs("/c/g"), config, None, &None, &defaults(), source)
    };
    assert_eq!(
        generate(&config, Ok(static_source())).unwrap_err().message(),
        "backend.oss config is required when snapshot.repository_backend = oss"
    );
    config.backend.oss = Some(sample_oss_config());
    let doc = generate(&config, Ok(static_source())).unwrap();
    assert_eq!(doc.oss.unwrap().default_region, "cn-hangzhou");
    assert_eq!(
        generate(&config, Err(failure("no key"))).unwrap_err().message(),
        "no key"
    );

    let cases = [
        (
            WriteStep::Generate,
            "write overlaybd global config /c/g: c",
        ),
        (
            WriteStep::MakeDir,
            "write overlaybd global config /c/g: create config parent dir /c: c",
        ),
        (
            WriteStep::Write,
            "write overlaybd global config /c/g: write overlaybd global config /c/g: c",
        ),
        (
            WriteStep::Encode,
            "write overlaybd global config /c/g: c",
        ),
        (
            WriteStep::SetMode,
            "write overlaybd global config /c/g: set permissions on /c/g: c",
        ),
    ];
    let steps = |path: &str| {
        let mut steps = vec![WriteStep::Generate];
        while let Some(next) = steps[steps.len() - 1].next(&fs(path)) {
            steps.push(next);
        }
        steps
    };
    assert_eq!(
        steps("/c/g"),
        vec![
            WriteStep::Generate,
            WriteStep::MakeDir,
            WriteStep::Encode,
            WriteStep::Write,
            WriteStep::SetMode
        ]
    );
    assert_eq!(
        steps("/"),
        vec![
            WriteStep::Generate,
            WriteStep::Encode,
            WriteStep::Write,
            WriteStep::SetMode
        ]
    );
    for (step, message) in cases {
        assert_eq!(
            global_config_failed(step, &fs("/c/g"), failure("c")).message(),
            message
        );
    }
}

#[test]
fn credential_files_are_looked_for_in_order() {
    let candidates = |a: Option<&str>, b: Option<&str>| {
        docker_credential_candidates(a.map(fs), b.map(fs))
            .iter()
            .map(text)
            .collect::<Vec<_>>()
    };
    assert_eq!(
        candidates(Some("/cfg"), Some("/root")),
        vec!["/cfg/config.json", "/root/.docker/config.json"]
    );
    assert_eq!(
        candidates(None, Some("/root")),
        vec!["/root/.docker/config.json"]
    );
    assert!(candidates(None, None).is_empty());
}

#[test]
fn configured_overlaybd_release_expands_arch_url() {
    let config = OverlaybdDependencyConfig {
        version: "v1.0.18-aenv.1".to_string(),
        url: None,
        package_url: Some(
            "https://example.invalid/static-{version}/overlaybd-tools-{version}-linux-{arch}.tar.gz"
                .to_string(),
        ),
    };

    let release =
        configured_overlaybd_release(&config, "aarch64").expect("configured overlaybd release");

    assert_eq!(release.tag_name, "v1.0.18-aenv.1");
    assert_eq!(
        release.package_url,
        "https://example.invalid/static-v1.0.18-aenv.1/overlaybd-tools-v1.0.18-aenv.1-linux-aarch64.tar.gz"
    );
}

#[test]
fn configured_overlaybd_release_rejects_unsupported_architecture() {
    let config = OverlaybdDependencyConfig {
        version: "v1.0.18-aenv.1".to_string(),
        url: None,
        package_url: Some("https://example.invalid/{arch}.tar.gz".to_string()),
    };

    let err = configured_overlaybd_release(&config, "riscv64")
        .expect_err("unsupported architecture should fail");
    assert!(err
        .message()
        .contains("unsupported overlaybd release architecture"));
}

#[test]
fn configured_release_needs_version_and_address() {
    let release = |version: &str, url: Option<&str>, package: Option<&str>| {
        configured_overlaybd_release(
            &OverlaybdDependencyConfig {
                version: version.to_string(),
                url: url.map(str::to_string),
                package_url: package.map(str::to_string),
            },
            "x86_64",
        )
    };
    assert_eq!(
        release("  ", None, None).unwrap_err().message(),
        "overlaybd.version not set in config"
    );
    assert_eq!(
        release("v1", None, None).unwrap_err().message(),
        "overlaybd.package_url not set in config"
    );
    assert_eq!(
        release("v1", Some("u"), Some(" ")).unwrap_err().message(),
        "overlaybd.package_url not set in config"
    );
    assert_eq!(
        release(" v1 ", Some(" u/{version} "), None).unwrap().package_url,
        "u/v1"
    );
}

#[test]
fn release_is_installed_unless_current() {
    let release = configured_overlaybd_release(
        &OverlaybdDependencyConfig {
            version: "v2".to_string(),
            url: Some("https://x.invalid/a/tools-{arch}.tar.gz".to_string()),
            package_url: None,
        },
        "x86_64",
    )
    .unwrap();
    let all = ToolsOnDisk {
        create: true,
        apply: true,
        commit: true,
        resize: true,
    };
    let record = match plan_release(&release, &fs("/o"), &None, all, true) {
        ReleasePlan::Install {
            downloads_dir,
            package,
            metadata,
            record,
        } => {
            assert_eq!(text(&downloads_dir), "/o/downloads");
            assert_eq!(text(&package), "/o/downloads/tools-x86_64.tar.gz");
            assert_eq!(text(&metadata), "/o/tools-release.json");
            assert!(check_package_format(&package).is_ok());
            record
        }
        other => panic!("unexpected plan: {other:?}"),
    };
    assert_eq!(record.tag_name, "v2");
    assert_eq!(record.asset_name, "tools-x86_64.tar.gz");
    assert_eq!(record.digest, None);

    let installed = Some(record);
    let current = |tools, config| {
        matches!(
            plan_release(&release, &fs("/o"), &installed, tools, config),
            ReleasePlan::Current
        )
    };
    assert!(current(all, true));
    assert!(!current(all, false));
    assert!(!current(ToolsOnDisk { resize: false, ..all }, true));
    let other = Some(OverlaybdInstalledRelease {
        tag_name: "v2".to_string(),
        asset_name: "tools-x86_64.tar.gz".to_string(),
        digest: Some("sha256:1".to_string()),
    });
    assert!(!matches!(
        plan_release(&release, &fs("/o"), &other, all, true),
        ReleasePlan::Current
    ));
    assert_eq!(
        text(&default_config_path(&fs("/o"))),
        "/o/etc/overlaybd/overlaybd.json"
    );
}

#[test]
fn payloads_are_checked() {
    assert_eq!(
        check_package_format(&fs("/d/a.zip")).unwrap_err().message(),
        "unsupported overlaybd package format for /d/a.zip (expected .tar.gz)"
    );
    assert!(check_package_format(&fs("/d/..")).is_err());
    assert!(check_payload_dir(&fs("/x/bin"), true).is_ok());
    assert_eq!(
        check_payload_dir(&fs("/x/bin"), false).unwrap_err().message(),
        "overlaybd release payload missing bin dir at /x/bin"
    );
    let tools = ToolsOnDisk {
        create: true,
        apply: false,
        commit: false,
        resize: true,
    };
    assert_eq!(tools.missing(), Some(OverlaybdTool::Apply));
    assert_eq!(
        check_payload_tool(&fs("/x/bin"), OverlaybdTool::Apply, false)
            .unwrap_err()
            .message(),
        "overlaybd release payload missing required tool '/x/bin/overlaybd-apply'"
    );
    assert!(check_payload_tool(&fs("/x/bin"), OverlaybdTool::Create, true).is_ok());
    assert!(check_payload_config(&fs("/x/c"), true).is_ok());
    assert_eq!(
        check_payload_config(&fs("/x/c"), false).unwrap_err().message(),
        "overlaybd release payload missing default config at /x/c"
    );
}

#[test]
fn failed_exchange_restores_the_previous_programs() {
    let backup = fs("/o/backup");
    let (state, action) = begin_swap(true);
    assert!(matches!(action, SwapAction::Backup));
    let (state, action) = swap_step(state, Ok(()), &backup);
    assert!(matches!(action, SwapAction::Install));
    let (state, action) = swap_step(state, Err(failure("busy")), &backup);
    assert!(matches!(action, SwapAction::Restore));
    match swap_step(state, Ok(()), &backup).1 {
        SwapAction::Fail {
            failure,
            keep_backup,
        } => {
            assert_eq!(failure.message(), "install staged overlaybd bin dir: busy");
            assert!(!keep_backup);
        }
        other => panic!("unexpected action: {other:?}"),
    }

    let (state, _) = begin_swap(true);
    let (state, _) = swap_step(state, Ok(()), &backup);
    let (state, _) = swap_step(state, Err(failure("busy")), &backup);
    match swap_step(state, Err(failure("gone")), &backup).1 {
        SwapAction::Fail {
            failure,
            keep_backup,
        } => {
            assert_eq!(
                failure.message(),
                "overlaybd release rollback was incomplete: restore previous overlaybd bin dir: gone; previous release backup preserved at '/o/backup': install staged overlaybd bin dir: busy"
            );
            assert!(keep_backup);
        }
        other => panic!("unexpected action: {other:?}"),
    }

    let (state, _) = begin_swap(true);
    match swap_step(state, Err(failure("busy")), &backup).1 {
        SwapAction::Fail { failure, .. } => assert_eq!(
            failure.message(),
            "backup installed overlaybd bin dir: busy"
        ),
        other => panic!("unexpected action: {other:?}"),
    }

    let (state, action) = begin_swap(false);
    assert!(matches!(action, SwapAction::Install));
    assert!(matches!(
        swap_step(state, Ok(()), &backup).1,
        SwapAction::Finish
    ));
    let (state, _) = begin_swap(false);
    assert!(matches!(
        swap_step(state, Err(failure("x")), &backup).1,
        SwapAction::Fail {
            keep_backup: false,
            ..
        }
    ));
}

type FakeBin = Vec<(String, u32)>;

/// What an installation finds and leaves.
struct FakeDisk {
    payload: Option<FakeBin>,
    payload_config: bool,
    package: bool,
    staged: Option<FakeBin>,
    backup: Option<FakeBin>,
    bin: Option<FakeBin>,
    lib: bool,
    config: bool,
    record: bool,
    /// The steps that fail, as they are written by `Debug`.
    broken: Vec<&'static str>,
}

const TOOL_NAMES: [&str; 4] = [
    "overlaybd-create",
    "overlaybd-apply",
    "overlaybd-commit",
    "overlaybd-resize",
];

fn programs(names: &[&str], mode: u32) -> FakeBin {
    names.iter().map(|name| (name.to_string(), mode)).collect()
}

fn old_release() -> FakeDisk {
    FakeDisk {
        payload: Some(programs(&TOOL_NAMES, 0o644)),
        payload_config: true,
        package: false,
        staged: None,
        backup: None,
        bin: Some(programs(&["old"], 0o755)),
        lib: true,
        config: false,
        record: false,
        broken: Vec::new(),
    }
}

/// Installs the package of `disk`. Returns the text of the failure and whether
/// the backup is kept.
fn install(disk: &mut FakeDisk) -> Result<(), (String, bool)> {
    let places = InstallPlaces {
        overlaybd_dir: fs("/o"),
        package: fs("/o/downloads/p.tar.gz"),
        extracted: fs("/x"),
        backup: fs("/o/backup"),
    };
    let mut stage = begin_install(&ReleasePlan::Install {
        downloads_dir: fs("/o/downloads"),
        package: fs("/o/downloads/p.tar.gz"),
        metadata: fs("/o/tools-release.json"),
        record: OverlaybdInstalledRelease {
            tag_name: "v1".to_string(),
            asset_name: "p.tar.gz".to_string(),
            digest: None,
        },
    });
    loop {
        let shown = format!("{stage:?}");
        let broken = disk.broken.iter().any(|name| shown.starts_with(name));
        let event = match &stage {
            InstallStage::Done => return Ok(()),
            _ if broken => InstallEvent::Failed(failure("io")),
            InstallStage::Download => {
                disk.package = true;
                InstallEvent::Succeeded
            }
            InstallStage::FindBin => InstallEvent::Found(disk.payload.is_some()),
            InstallStage::CopyBin => {
                disk.staged = disk.payload.clone();
                InstallEvent::Succeeded
            }
            InstallStage::FindTool(tool) => InstallEvent::Found(
                disk.staged
                    .as_ref()
                    .unwrap()
                    .iter()
                    .any(|(name, _)| name == tool.name()),
            ),
            InstallStage::ModeTool(tool) => {
                for entry in disk.staged.as_mut().unwrap() {
                    if entry.0 == tool.name() {
                        entry.1 = TOOL_MODE;
                    }
                }
                InstallEvent::Succeeded
            }
            InstallStage::FindInstalled => InstallEvent::Found(disk.bin.is_some()),
            InstallStage::Swap(state) => {
                match state {
                    SwapState::BackingUp => disk.backup = disk.bin.take(),
                    SwapState::Installing { .. } => disk.bin = disk.staged.take(),
                    SwapState::Restoring { .. } => disk.bin = disk.backup.take(),
                    SwapState::Finished => {}
                }
                InstallEvent::Succeeded
            }
            InstallStage::FindLib => InstallEvent::Lib(if disk.lib {
                LegacyLib::Directory
            } else {
                LegacyLib::NotFound
            }),
            InstallStage::RemoveLib(action) => {
                assert_eq!(*action, LegacyLibAction::RemoveTree);
                disk.lib = false;
                InstallEvent::Succeeded
            }
            InstallStage::FindConfig => InstallEvent::Found(disk.payload_config),
            InstallStage::CopyConfig => {
                disk.config = true;
                InstallEvent::Succeeded
            }
            InstallStage::WriteRecord => {
                disk.record = true;
                InstallEvent::Succeeded
            }
            InstallStage::RemovePackage => {
                disk.package = false;
                InstallEvent::Succeeded
            }
            _ => InstallEvent::Succeeded,
        };
        stage = match stage.after(event, &places) {
            InstallNext::Go(next) => next,
            InstallNext::Fail {
                failure,
                keep_backup,
            } => return Err((failure.message(), keep_backup)),
        };
    }
}

#[test]
fn incomplete_package_leaves_the_old_release() {
    let cases: [(Option<FakeBin>, &str); 2] = [
        (None, "overlaybd release payload missing bin dir at /x/bin"),
        (
            Some(programs(&["overlaybd-create", "overlaybd-commit"], 0o644)),
            "overlaybd release payload missing required tool '/x/bin/overlaybd-apply'",
        ),
    ];
    for (payload, message) in cases {
        let mut disk = old_release();
        disk.payload = payload;
        assert_eq!(install(&mut disk), Err((message.to_string(), false)));
        assert_eq!(disk.bin, Some(programs(&["old"], 0o755)));
        assert!(disk.lib && !disk.config && !disk.record);
    }
    let mut disk = old_release();
    disk.payload_config = false;
    assert_eq!(
        install(&mut disk).unwrap_err().0,
        "overlaybd release payload missing default config at /x/etc/overlaybd/overlaybd.json"
    );
    assert!(!disk.lib && !disk.record);
}

#[test]
fn broken_steps_of_an_installation_are_told() {
    let cases = [
        ("MakeDownloads", "create overlaybd downloads dir '/o/downloads': io"),
        ("Download", "io"),
        ("MakeExtractDir", "create temp dir for overlaybd release: io"),
        ("OpenPackage", "open overlaybd package /o/downloads/p.tar.gz: io"),
        ("Unpack", "extract overlaybd package /o/downloads/p.tar.gz: io"),
        ("MakeDir", "create overlaybd dir '/o': io"),
        ("MakeStaging", "create overlaybd release staging dir: io"),
        ("CopyBin", "io"),
        ("ModeTool(Commit)", "io"),
        ("MakeBackup", "create overlaybd release backup dir: io"),
        ("Swap(BackingUp)", "backup installed overlaybd bin dir: io"),
        ("Swap(Installing", "install staged overlaybd bin dir: io"),
        ("RemoveLib", "remove legacy overlaybd lib /o/lib: io"),
        ("MakeConfigDir", "create overlaybd config dir '/o/etc/overlaybd': io"),
        (
            "CopyConfig",
            "stage overlaybd default config '/x/etc/overlaybd/overlaybd.json' -> '/o/etc/overlaybd/overlaybd.json': io",
        ),
        ("EncodeRecord", "io"),
        ("WriteRecord", "write overlaybd release metadata '/o/tools-release.json': io"),
    ];
    let exchanged = cases.iter().position(|case| case.0 == "RemoveLib").unwrap();
    for (i, (stage, message)) in cases.iter().enumerate() {
        let mut disk = old_release();
        disk.broken = vec![*stage];
        assert_eq!(install(&mut disk), Err((message.to_string(), false)));
        assert_eq!(disk.bin == Some(programs(&["old"], 0o755)), i < exchanged);
        assert!(disk.lib || i > exchanged);
        assert!(!disk.record);
    }
    let mut disk = old_release();
    disk.broken = vec!["Swap(Installing", "Swap(Restoring"];
    assert!(install(&mut disk).unwrap_err().1);
    assert_eq!(disk.backup, Some(programs(&["old"], 0o755)));

    let mut disk = old_release();
    disk.broken = vec!["RemovePackage", "RemoveDownloads"];
    assert!(install(&mut disk).is_ok());
}

#[test]
fn package_of_another_format_is_not_opened() {
    let places = InstallPlaces {
        overlaybd_dir: fs("/o"),
        package: fs("/o/downloads/p.zip"),
        extracted: fs("/x"),
        backup: fs(""),
    };
    match InstallStage::MakeExtractDir.after(InstallEvent::Succeeded, &places) {
        InstallNext::Fail { failure, .. } => assert_eq!(
            failure.message(),
            "unsupported overlaybd package format for /o/downloads/p.zip (expected .tar.gz)"
        ),
        other => panic!("unexpected step: {other:?}"),
    }
    assert!(matches!(
        begin_install(&ReleasePlan::Current),
        InstallStage::Done
    ));
}

#[test]
fn installs_static_tools_without_lib_and_removes_legacy_lib() {
    let mut disk = old_release();
    disk.bin = None;
    install(&mut disk).expect("install static overlaybd tools");
    assert!(!disk.lib);
    assert_eq!(disk.bin, Some(programs(&TOOL_NAMES, 0o755)));
    assert!(disk.config && disk.record && !disk.package);

    let mut disk = old_release();
    disk.payload.as_mut().unwrap().push(("extra".to_string(), 0o600));
    install(&mut disk).expect("replace overlaybd tools");
    let mut expected = programs(&TOOL_NAMES, 0o755);
    expected.push(("extra".to_string(), 0o600));
    assert_eq!(disk.bin, Some(expected));
    assert_eq!(disk.backup, Some(programs(&["old"], 0o755)));

    let lib = fs("/o/lib");
    assert_eq!(
        legacy_lib_action(&lib, LegacyLib::Directory).unwrap(),
        LegacyLibAction::RemoveTree
    );
    assert_eq!(
        legacy_lib_action(&lib, LegacyLib::OtherKind).unwrap(),
        LegacyLibAction::RemoveFile
    );
    assert_eq!(
        legacy_lib_action(&lib, LegacyLib::NotFound).unwrap(),
        LegacyLibAction::Nothing
    );
    assert_eq!(
        legacy_lib_action(&lib, LegacyLib::Failed(failure("io")))
            .unwrap_err()
            .message(),
        "inspect legacy overlaybd lib /o/lib: io"
    );
}

#[test]
fn system_default_config_is_readable_by_the_runtime_group() {
    assert_eq!(SYSTEM_CONFIG_MODE, 0o640);
    assert_eq!(SYSTEM_CONFIG_DIR_MODE, 0o750);
    let source = fs("/s/overlaybd.json");
    let destination = fs("/etc/overlaybd/overlaybd.json");
    let run = |found| {
        let mut steps = Vec::new();
        let mut step = SystemConfigStep::Inspect;
        while step != SystemConfigStep::Done {
            steps.push(step);
            step = system_config_next(step, &source, &destination, found, true).unwrap();
        }
        steps
    };
    let fresh = run(Destination::Absent);
    assert_eq!(
        fresh,
        vec![
            SystemConfigStep::Inspect,
            SystemConfigStep::MakeDir,
            SystemConfigStep::GroupDir,
            SystemConfigStep::ModeDir,
            SystemConfigStep::Choose,
            SystemConfigStep::Copy,
            SystemConfigStep::GroupFile,
            SystemConfigStep::ModeFile,
        ]
    );
    let retained = run(Destination::File);
    assert!(!retained.contains(&SystemConfigStep::Copy));
    assert_eq!(retained.len(), fresh.len() - 1);

    let next = |step, destination: &FsPath, found, is_file| {
        system_config_next(step, &source, destination, found, is_file)
    };
    assert_eq!(
        next(
            SystemConfigStep::Inspect,
            &destination,
            Destination::OtherKind,
            true
        )
        .unwrap_err()
        .message(),
        "overlaybd system config is not a regular file: /etc/overlaybd/overlaybd.json"
    );
    assert_eq!(
        next(SystemConfigStep::Inspect, &fs("/"), Destination::Absent, true)
            .unwrap_err()
            .message(),
        "overlaybd system config path has no parent directory"
    );
    assert_eq!(
        next(
            SystemConfigStep::Choose,
            &destination,
            Destination::Absent,
            false
        )
        .unwrap_err()
        .message(),
        "staged overlaybd default config is missing: /s/overlaybd.json"
    );
    let cases = [
        (SystemConfigStep::MakeDir, "create /etc/overlaybd: c"),
        (
            SystemConfigStep::GroupDir,
            "set runtime group ownership on /etc/overlaybd: c",
        ),
        (
            SystemConfigStep::ModeDir,
            "set permissions on /etc/overlaybd: c",
        ),
        (
            SystemConfigStep::Copy,
            "install overlaybd default config /s/overlaybd.json -> /etc/overlaybd/overlaybd.json: c",
        ),
        (
            SystemConfigStep::GroupFile,
            "set runtime group ownership on /etc/overlaybd/overlaybd.json: c",
        ),
        (
            SystemConfigStep::ModeFile,
            "set permissions on /etc/overlaybd/overlaybd.json: c",
        ),
    ];
    for (step, message) in cases {
        assert_eq!(
            system_config_failed(step, &source, &destination, failure("c")).message(),
            message
        );
    }
}
