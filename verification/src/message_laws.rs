//! What failures say: each names what was being done, and the path, number or
//! name that it was done with.
use crate::config::normalize::{bad_domain_text, debug_quoted};
use crate::config::network::bad_cidr_text;
use crate::config::types::MemorySnapshotBackgroundDownloadConfig;
use crate::config::validate::{download_rejection, pool_rejection, same_file_text};
use crate::daemon::error::{DaemonError, ErrorView, in_context, plain_error};
use crate::daemon::handlers::{
    cow_snapshot_text, not_found_for_snapshot_text, not_found_text, numbered,
};
use crate::daemon::lifecycle::{
    CreateStage, DeviceKind, ServeEvent, ServeStep, create_context, serve_next,
};
use crate::daemon::placeholders::{BuildStage, build_context, config_path, data_path};
use crate::daemon::pool::{no_resize_text, not_active_text, size_mismatch_text};
use crate::daemon::warm_pool::PoolConfig;
use crate::fs_path::{join_text, lossy_text, parent};
use crate::oci::{
    DecompressorEnd, ToolExecutionError, decompressor_context, exit_code_text, not_text_reason,
    tool_error_text,
};
use crate::setup::deps::{FileFacts, explicit_rejection, tools_version_missing_text};
use crate::setup::extract::{ExtractStep, ImageExtraction};
use crate::setup::global_config::{WriteStep, write_failure_text};
use crate::setup::install::{
    InstallPlaces, InstallStage, install_failure_text, not_found_text as not_in_package_text,
};
use crate::setup::release::{
    LegacyLibAction, OverlaybdTool, SystemConfigStep, incomplete_text, system_config_context, tool_name,
};
use crate::text::{decimal, trim_end_of, trimmed};
use vstd::prelude::*;

verus! {

/// A context stands in front of what it is the context of, and changes neither
/// the class nor the text of that.
pub proof fn law_contexts(context: Seq<char>, error: ErrorView, message: Seq<char>)
    ensures
        in_context(context, error).class == error.class,
        in_context(context, error).message == context + ": "@ + error.message,
        plain_error(message).class is Plain,
        plain_error(message).message == message,
        crate::failure::in_context(context, message) == context + ": "@ + message,
{
}

/// What is said of devices.
pub proof fn law_device_messages(
    wanted: u64,
    actual: u64,
    image_config: Seq<u8>,
    dev_id: u32,
    before: Seq<char>,
    after: Seq<char>,
)
    ensures
        size_mismatch_text(wanted, actual, image_config)
            == "requested overlaybd acquire virtual size "@ + decimal(wanted as nat)
            + " does not match image virtual size "@ + decimal(actual as nat) + ": "@ + lossy_text(
            image_config,
        ),
        not_active_text(dev_id) == "device "@ + decimal(dev_id as nat)
            + " not found in active pool"@,
        numbered(before, dev_id, after) == before + decimal(dev_id as nat) + after,
        no_resize_text() == "UBLK_F_UPDATE_SIZE not supported by kernel"@,
        not_found_text(dev_id) == "device "@ + decimal(dev_id as nat) + " not found"@,
        not_found_for_snapshot_text(dev_id) == "device "@ + decimal(dev_id as nat)
            + " not found for snapshot"@,
        cow_snapshot_text(dev_id)
            == "snapshot is only supported for overlaybd devices, not cow (dev_id="@ + decimal(
            dev_id as nat,
        ) + ")"@,
{
}

/// What is said of a device that does not come up.
pub proof fn law_create_messages(kind: DeviceKind, image: Seq<u8>)
    ensures
        create_context(kind, CreateStage::Service, image)
            == "resolve image service for raw overlaybd device"@,
        create_context(kind, CreateStage::Open, image) == "open overlaybd image: "@ + lossy_text(
            image,
        ),
        kind is Overlaybd ==> create_context(kind, CreateStage::Target, image)
            == "create overlaybd target"@,
        kind is Cow ==> create_context(kind, CreateStage::Target, image) == "create cow target"@,
        create_context(kind, CreateStage::Control, image) == "build ublk ctrl"@,
        create_context(kind, CreateStage::Build, image) == "build ublk dev"@,
        create_context(kind, CreateStage::Start, image) == "start ublk dev"@,
        create_context(kind, CreateStage::Wait, image) == "wait for ublk device"@,
{
}

/// What is said of a placeholder that cannot be built.
pub proof fn law_placeholder_messages(dir: Seq<u8>, virtual_size: u64)
    ensures
        data_path(dir, virtual_size) == join_text(dir, decimal(virtual_size as nat) + ".data"@),
        config_path(dir, virtual_size) == join_text(dir, decimal(virtual_size as nat) + ".json"@),
        build_context(dir, virtual_size, BuildStage::CreateDir) == "create pool placeholder dir "@
            + lossy_text(dir),
        build_context(dir, virtual_size, BuildStage::PrepareUpper) == "create placeholder upper "@
            + lossy_text(join_text(dir, decimal(virtual_size as nat) + ".data"@)),
        build_context(dir, virtual_size, BuildStage::Serialize)
            == "serialize placeholder image config"@,
        build_context(dir, virtual_size, BuildStage::WriteConfig) == "write placeholder config "@
            + lossy_text(join_text(dir, decimal(virtual_size as nat) + ".json"@)),
        build_context(dir, virtual_size, BuildStage::OpenImage) == "open placeholder image "@
            + lossy_text(join_text(dir, decimal(virtual_size as nat) + ".json"@)),
{
}

/// What is said of a daemon that cannot serve.
pub proof fn law_serve_messages(error: DaemonError, socket: Seq<u8>)
    ensures
        serve_next(ServeStep::InspectSocket, ServeEvent::Occupied { answered: true }, socket)
            matches Err(told) && told.message == "daemon socket "@ + lossy_text(socket)
            + " is in use by another process"@,
        serve_next(ServeStep::RemoveStale, ServeEvent::Failed(error), socket) matches Err(told)
            && told.message == "remove stale daemon socket: "@ + lossy_text(socket) + ": "@
            + error@.message,
        serve_next(ServeStep::Bind, ServeEvent::Failed(error), socket) matches Err(told)
            && told.message == "bind daemon socket: "@ + lossy_text(socket) + ": "@
            + error@.message,
        serve_next(ServeStep::SignalReady, ServeEvent::Failed(error), socket) matches Err(told)
            && told == error@,
        serve_next(ServeStep::Accept, ServeEvent::Failed(error), socket) matches Err(told)
            && told.message == "accept daemon connection"@ + ": "@ + error@.message,
{
}

/// What is said of a conversion that fails.
pub proof fn law_tool_messages(
    error: ToolExecutionError,
    path: Seq<u8>,
    code: i32,
    end: DecompressorEnd,
    line: Seq<char>,
)
    ensures
        error matches ToolExecutionError::MissingBinary { path } ==> tool_error_text(error)
            == "overlaybd tool binary not found at "@ + lossy_text(path@),
        error matches ToolExecutionError::InvalidRequest { reason } ==> tool_error_text(error)
            == reason@,
        error matches ToolExecutionError::NonZeroExit { command_line, exit_code, stderr, .. }
            ==> tool_error_text(error) == "tool failed: "@ + command_line@ + "\nexit code: "@
            + exit_code_text(exit_code) + "\nstderr: "@ + stderr@,
        error matches ToolExecutionError::Other { context, .. } ==> tool_error_text(error)
            == context@,
        not_text_reason(path)
            == "path contains non-UTF-8 bytes and cannot be serialized into overlaybd image config: "@
            + lossy_text(path),
        code >= 0 ==> exit_code_text(Some(code)) == "Some("@ + decimal(code as nat) + ")"@,
        code < 0 ==> exit_code_text(Some(code)) == "Some("@ + ("-"@ + decimal((-code) as nat))
            + ")"@,
        exit_code_text(None) == "None"@,
        end is WaitFailed ==> decompressor_context(end, line) == "wait for layer decompressor: "@
            + line,
        end is JoinFailed ==> decompressor_context(end, line)
            == "join stderr reader for layer decompressor: "@ + line,
        end is ReadFailed ==> decompressor_context(end, line)
            == "read stderr from layer decompressor: "@ + line,
{
}

/// What is said of a configuration that is not accepted.
pub proof fn law_config_messages(
    name: Seq<char>,
    pool: PoolConfig,
    network: Seq<char>,
    domain: Seq<char>,
)
    ensures
        pool.low_watermark > pool.high_watermark ==> pool_rejection(name, pool) == Some(
            "invalid "@ + name + " pool config: low_watermark ("@ + decimal(
                pool.low_watermark as nat,
            ) + ") must be <= high_watermark ("@ + decimal(pool.high_watermark as nat) + ")"@,
        ),
        bad_cidr_text(network) == "invalid network config: not an IPv4 CIDR: '"@ + network + "'"@,
        bad_domain_text(domain) == "sandbox_proxy.domains contains invalid domain "@
            + debug_quoted(trim_end_of(trimmed(domain), '.')),
        same_file_text()
            == "ublk.overlaybd.global_config_path and memory_snapshot.overlaybd_global_config_path must be different"@,
        tools_version_missing_text()
            == "tools.version is required when tools.drive_path or tools.url is configured"@,
{
}

/// What is said of a background download that is out of its bounds: the first
/// bound that it breaks.
pub proof fn law_download_messages(cfg: MemorySnapshotBackgroundDownloadConfig)
    ensures
        ({
            let said = download_rejection(cfg);
            &&& cfg.concurrency == 0 ==> said == Some(
                "memory_snapshot.background_download.concurrency must be > 0"@,
            )
            &&& cfg.concurrency > 16 ==> said == Some(
                "memory_snapshot.background_download.concurrency must be <= "@ + decimal(16),
            )
            &&& 1 <= cfg.concurrency <= 16 && cfg.block_size > 67108864 ==> said == Some(
                "memory_snapshot.background_download.block_size must be <= "@ + decimal(67108864),
            )
            &&& 1 <= cfg.concurrency <= 16 && cfg.block_size <= 67108864 && cfg.block_size
                * cfg.concurrency > 268435456 ==> said == Some(
                "memory_snapshot.background_download block_size * concurrency must be <= "@
                    + decimal(268435456) + " bytes"@,
            )
            &&& 1 <= cfg.concurrency <= 16 && cfg.block_size <= 67108864 && cfg.block_size
                * cfg.concurrency <= 268435456 ==> {
                &&& cfg.max_inflight_blocks == 0 ==> said == Some(
                    "memory_snapshot.background_download.max_inflight_blocks must be > 0"@,
                )
                &&& cfg.max_inflight_blocks > 128 ==> said == Some(
                    "memory_snapshot.background_download.max_inflight_blocks must be <= "@
                        + decimal(128),
                )
                &&& 1 <= cfg.max_inflight_blocks <= 128 && cfg.block_size
                    * cfg.max_inflight_blocks > 2147483648 ==> said == Some(
                    "memory_snapshot.background_download block_size * max_inflight_blocks must be <= "@
                        + decimal(2147483648) + " bytes"@,
                )
                &&& 1 <= cfg.max_inflight_blocks <= 128 && cfg.block_size
                    * cfg.max_inflight_blocks <= 2147483648 ==> {
                    &&& cfg.delay < 0 ==> said == Some(
                        "memory_snapshot.background_download.delay must be >= 0"@,
                    )
                    &&& cfg.delay >= 0 && cfg.try_cnt < 1 ==> said == Some(
                        "memory_snapshot.background_download.try_cnt must be >= 1"@,
                    )
                    &&& cfg.delay >= 0 && cfg.try_cnt >= 1 ==> said is None
                }
            }
        }),
{
}

/// What is said of a configured file that cannot be used.
pub proof fn law_file_messages(
    key: Seq<char>,
    path: Seq<u8>,
    executable: bool,
    facts: FileFacts,
    cause: String,
)
    ensures
        explicit_rejection(key, path, executable, Err(cause), Ok(())) == Some(
            "validate "@ + key + " "@ + lossy_text(path) + ": "@ + cause@,
        ),
        !facts.is_file ==> explicit_rejection(key, path, executable, Ok(facts), Ok(())) == Some(
            key + " is not a regular file: "@ + lossy_text(path),
        ),
        facts.is_file && facts.len == 0 ==> explicit_rejection(
            key,
            path,
            executable,
            Ok(facts),
            Ok(()),
        ) == Some(key + " is an empty file: "@ + lossy_text(path)),
        facts.is_file && facts.len > 0 ==> explicit_rejection(
            key,
            path,
            executable,
            Ok(facts),
            Err(cause),
        ) == Some(key + " is not readable: "@ + lossy_text(path) + ": "@ + cause@),
        facts.is_file && facts.len > 0 && executable && facts.mode & 0o111 == 0
            ==> explicit_rejection(key, path, executable, Ok(facts), Ok(())) == Some(
            key + " is not executable: "@ + lossy_text(path),
        ),
{
}

/// What is said of a global configuration that cannot be written.
pub proof fn law_global_config_messages(path: Seq<u8>, cause: Seq<char>)
    ensures
        write_failure_text(WriteStep::Generate, path, cause) == "write overlaybd global config "@
            + lossy_text(path) + ": "@ + cause,
        write_failure_text(WriteStep::Encode, path, cause) == "write overlaybd global config "@
            + lossy_text(path) + ": "@ + cause,
        parent(path) matches Some(dir) ==> write_failure_text(WriteStep::MakeDir, path, cause)
            == "write overlaybd global config "@ + lossy_text(path) + ": "@ + (
        "create config parent dir "@ + lossy_text(dir) + ": "@ + cause),
        write_failure_text(WriteStep::Write, path, cause) == "write overlaybd global config "@
            + lossy_text(path) + ": "@ + ("write overlaybd global config "@ + lossy_text(path)
            + ": "@ + cause),
        write_failure_text(WriteStep::SetMode, path, cause) == "write overlaybd global config "@
            + lossy_text(path) + ": "@ + ("set permissions on "@ + lossy_text(path) + ": "@
            + cause),
{
}

/// What is said of a release that cannot be installed.
pub proof fn law_install_messages(places: InstallPlaces, tool: OverlaybdTool, cause: Seq<char>)
    ensures
        install_failure_text(places, InstallStage::MakeDownloads, cause)
            == "create overlaybd downloads dir '"@ + lossy_text(
            join_text(places.overlaybd_dir@, "downloads"@),
        ) + "'"@ + ": "@ + cause,
        install_failure_text(places, InstallStage::Download, cause) == cause,
        install_failure_text(places, InstallStage::MakeExtractDir, cause)
            == "create temp dir for overlaybd release"@ + ": "@ + cause,
        install_failure_text(places, InstallStage::MakeStaging, cause)
            == "create overlaybd release staging dir"@ + ": "@ + cause,
        install_failure_text(places, InstallStage::MakeBackup, cause)
            == "create overlaybd release backup dir"@ + ": "@ + cause,
        install_failure_text(
            places,
            InstallStage::RemoveLib(LegacyLibAction::RemoveTree),
            cause,
        ) == "remove legacy overlaybd lib "@ + lossy_text(
            join_text(places.overlaybd_dir@, "lib"@),
        ) + ": "@ + cause,
        parent(join_text(places.overlaybd_dir@, "etc/overlaybd/overlaybd.json"@)) matches Some(dir)
            ==> install_failure_text(places, InstallStage::MakeConfigDir, cause)
            == "create overlaybd config dir '"@ + lossy_text(dir) + "'"@ + ": "@ + cause,
        install_failure_text(places, InstallStage::OpenPackage, cause) == "open overlaybd package "@
            + lossy_text(places.package@) + ": "@ + cause,
        install_failure_text(places, InstallStage::Unpack, cause) == "extract overlaybd package "@
            + lossy_text(places.package@) + ": "@ + cause,
        install_failure_text(places, InstallStage::MakeDir, cause) == "create overlaybd dir '"@
            + lossy_text(places.overlaybd_dir@) + "'"@ + ": "@ + cause,
        install_failure_text(places, InstallStage::CopyBin, cause) == cause,
        install_failure_text(places, InstallStage::ModeTool(tool), cause) == cause,
        install_failure_text(places, InstallStage::CopyConfig, cause)
            == "stage overlaybd default config '"@ + lossy_text(
            join_text(places.extracted@, "etc/overlaybd/overlaybd.json"@),
        ) + "' -> '"@ + lossy_text(
            join_text(places.overlaybd_dir@, "etc/overlaybd/overlaybd.json"@),
        ) + "'"@ + ": "@ + cause,
        install_failure_text(places, InstallStage::WriteRecord, cause)
            == "write overlaybd release metadata '"@ + lossy_text(
            join_text(places.overlaybd_dir@, "tools-release.json"@),
        ) + "'"@ + ": "@ + cause,
        not_in_package_text(places, InstallStage::FindBin)
            == "overlaybd release payload missing bin dir at "@ + lossy_text(
            join_text(places.extracted@, "bin"@),
        ),
        not_in_package_text(places, InstallStage::FindTool(tool))
            == "overlaybd release payload missing required tool '"@ + lossy_text(
            join_text(
                join_text(places.extracted@, "bin"@),
                tool_name(tool),
            ),
        ) + "'"@,
        not_in_package_text(places, InstallStage::FindConfig)
            == "overlaybd release payload missing default config at "@ + lossy_text(
            join_text(places.extracted@, "etc/overlaybd/overlaybd.json"@),
        ),
{
}

/// What is said of an exchange that cannot be undone, and of a system
/// configuration that cannot be installed.
pub proof fn law_release_messages(
    rollback: Seq<char>,
    backup: Seq<u8>,
    install: Seq<char>,
    source: Seq<u8>,
    destination: Seq<u8>,
)
    ensures
        incomplete_text(rollback, backup, install) == "overlaybd release rollback was incomplete: "@
            + ("restore previous overlaybd bin dir"@ + ": "@ + rollback)
            + "; previous release backup preserved at '"@ + lossy_text(backup) + "'"@ + ": "@
            + install,
        parent(destination) matches Some(dir) ==> {
            &&& system_config_context(SystemConfigStep::MakeDir, source, destination) == "create "@
                + lossy_text(dir)
            &&& system_config_context(SystemConfigStep::GroupDir, source, destination)
                == "set runtime group ownership on "@ + lossy_text(dir)
            &&& system_config_context(SystemConfigStep::ModeDir, source, destination)
                == "set permissions on "@ + lossy_text(dir)
        },
        system_config_context(SystemConfigStep::Copy, source, destination)
            == "install overlaybd default config "@ + lossy_text(source) + " -> "@ + lossy_text(
            destination,
        ),
        system_config_context(SystemConfigStep::GroupFile, source, destination)
            == "set runtime group ownership on "@ + lossy_text(destination),
        system_config_context(SystemConfigStep::ModeFile, source, destination)
            == "set permissions on "@ + lossy_text(destination),
{
}

/// What is said of a container image that cannot be unpacked.
pub proof fn law_extraction_messages(extraction: ImageExtraction, cause: Seq<char>)
    ensures
        extraction.failure_text(ExtractStep::CheckRegctl, cause)
            == "regctl is required to download container images: "@ + lossy_text(
            extraction.regctl@,
        ),
        extraction.failure_text(ExtractStep::FindUmoci, cause)
            == "umoci is required to unpack container images"@ + ": "@ + cause,
        extraction.failure_text(ExtractStep::MakeTempDir, cause)
            == "failed to create temporary directory"@ + ": "@ + cause,
        extraction.failure_text(ExtractStep::CopyImage, cause) == cause,
        extraction.failure_text(ExtractStep::UnpackImage, cause) == cause,
        extraction.failure_text(ExtractStep::Locate, cause) == cause,
        extraction.failure_text(ExtractStep::Install, cause) == cause,
{
}

} // verus!
