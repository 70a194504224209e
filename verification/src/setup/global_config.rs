//! The global configurations of the overlaybd runtime, one for root file
//! systems and one for memory snapshots.
use crate::config::normalize::{nonblank, text_option};
use crate::config::paths::path_option;
use crate::config::types::{
    AppConfig, MemorySnapshotBackgroundDownloadConfig, OssBackendConfig,
    SnapshotRepositoryBackendKind,
};
use crate::failure::{Failure, in_context};
use crate::fs_path::{FsPath, join_text, lossy_text, parent};
use crate::oci::arg_views;
use crate::text::{is_white, joined, trim, trimmed};
use crate::text_laws::law_trimmed;
use vstd::prelude::*;
use vstd::utf8::*;

verus! {

/// How layers are downloaded in the background.
#[derive(Debug, Clone, Copy, PartialEq, Eq, Structural)]
pub struct DownloadConfig {
    pub enable: bool,
    pub delay: i32,
    pub delay_extra: i32,
    /// The rate limit; zero is none.
    pub max_mbps: i32,
    pub try_cnt: i32,
    pub block_size: u32,
    pub concurrency: usize,
    pub max_inflight_blocks: usize,
    pub max_concurrent_files: usize,
}

impl MemorySnapshotBackgroundDownloadConfig {
    /// The download of memory snapshots. It has no rate limit; how many files
    /// are downloaded at a time is left at the default of the runtime.
    pub open spec fn download(self, defaults: DownloadConfig) -> DownloadConfig {
        DownloadConfig {
            enable: self.enable,
            delay: self.delay,
            delay_extra: self.delay_extra,
            max_mbps: 0,
            try_cnt: self.try_cnt,
            block_size: self.block_size,
            concurrency: self.concurrency,
            max_inflight_blocks: self.max_inflight_blocks,
            max_concurrent_files: defaults.max_concurrent_files,
        }
    }

    /// The download of memory snapshots, where `defaults` are the defaults of
    /// the runtime.
    pub fn to_overlaybd_download_config(&self, defaults: &DownloadConfig) -> (r: DownloadConfig)
        ensures
            r == self.download(*defaults),
            r.enable == self.enable,
            r.delay == self.delay,
            r.delay_extra == self.delay_extra,
            r.max_mbps == 0,
            r.try_cnt == self.try_cnt,
            r.block_size == self.block_size,
            r.concurrency == self.concurrency,
            r.max_inflight_blocks == self.max_inflight_blocks,
            r.max_concurrent_files == defaults.max_concurrent_files,
    {
        DownloadConfig {
            enable: self.enable,
            delay: self.delay,
            delay_extra: self.delay_extra,
            max_mbps: 0,
            try_cnt: self.try_cnt,
            block_size: self.block_size,
            concurrency: self.concurrency,
            max_inflight_blocks: self.max_inflight_blocks,
            max_concurrent_files: defaults.max_concurrent_files,
        }
    }
}

/// How the runtime finds the credentials of registries.
#[derive(Debug)]
pub struct CredentialDoc {
    pub mode: String,
    pub path: String,
    pub timeout: u64,
}

/// How the runtime reaches the facade of the artifact exchange.
#[derive(Debug)]
pub struct P2pDoc {
    pub enable: bool,
    pub address: String,
}

/// How the runtime reaches an object store.
#[derive(Debug)]
pub struct OssDoc {
    pub enable: bool,
    pub default_region: String,
    pub default_endpoint: String,
    pub access_key_id: String,
    pub secret_access_key: String,
    pub security_token: String,
    pub credential_process: String,
}

/// A global configuration of the runtime.
#[derive(Debug)]
pub struct GlobalConfigDoc {
    pub log_level: u64,
    pub log_path: FsPath,
    pub cache_type: String,
    pub cache_dir: FsPath,
    pub cache_size_gb: u64,
    pub refill_size: u64,
    pub block_size: u64,
    pub credential: CredentialDoc,
    pub io_engine: u64,
    pub download: DownloadConfig,
    pub p2p: P2pDoc,
    pub enable_audit: bool,
    pub registry_fs_version: String,
    pub oss: Option<OssDoc>,
}

/// The permissions of a global configuration: it may hold credentials.
pub const GLOBAL_CONFIG_MODE: u32 = 0o600;

/// Where the credentials of an object store come from.
#[derive(Debug)]
pub enum CredentialSource {
    Static {
        access_key_id: String,
        secret_access_key: String,
        security_token: Option<String>,
    },
    Process { command: String },
    Anonymous,
}

/// What the credentials of an object store are worked out from.
#[derive(Debug)]
pub struct CredentialRequest {
    pub access_key_id: Option<String>,
    pub secret_access_key: Option<String>,
    pub security_token: Option<String>,
    pub credential_process: Option<String>,
    /// The part of the configuration that is named in failures.
    pub scope: String,
    /// Whether access without credentials is acceptable.
    pub allow_anonymous: bool,
    /// How the key is called in the failure that it is missing.
    pub required_access_key_id_label: String,
    /// How the secret is called in the failure that it is missing.
    pub required_secret_access_key_label: String,
}

/// `request` asks for the credentials of `oss`.
pub open spec fn is_credential_request(request: CredentialRequest, oss: OssBackendConfig) -> bool {
    &&& text_option(request.access_key_id) == text_option(oss.access_key_id)
    &&& text_option(request.secret_access_key) == text_option(oss.access_key_secret)
    &&& text_option(request.security_token) == text_option(oss.security_token)
    &&& text_option(request.credential_process) == text_option(oss.credential_process)
    &&& request.scope@ == "backend.oss"@
    &&& !request.allow_anonymous
    &&& request.required_access_key_id_label@ == "backend.oss.access_key_id"@
    &&& request.required_secret_access_key_label@ == "backend.oss.access_key_secret"@
}

fn text_copy(text: &Option<String>) -> (r: Option<String>)
    ensures
        text_option(r) == text_option(*text),
{
    match text {
        Some(text) => Some(text.clone()),
        None => None,
    }
}

/// What the credentials of `oss` are worked out from.
pub fn credential_request(oss: &OssBackendConfig) -> (r: CredentialRequest)
    ensures
        is_credential_request(r, *oss),
        text_option(r.access_key_id) == text_option(oss.access_key_id),
        text_option(r.secret_access_key) == text_option(oss.access_key_secret),
        text_option(r.security_token) == text_option(oss.security_token),
        text_option(r.credential_process) == text_option(oss.credential_process),
        r.scope@ == "backend.oss"@,
        !r.allow_anonymous,
        r.required_access_key_id_label@ == "backend.oss.access_key_id"@,
        r.required_secret_access_key_label@ == "backend.oss.access_key_secret"@,
{
    CredentialRequest {
        access_key_id: text_copy(&oss.access_key_id),
        secret_access_key: text_copy(&oss.access_key_secret),
        security_token: text_copy(&oss.security_token),
        credential_process: text_copy(&oss.credential_process),
        scope: "backend.oss".to_owned(),
        allow_anonymous: false,
        required_access_key_id_label: "backend.oss.access_key_id".to_owned(),
        required_secret_access_key_label: "backend.oss.access_key_secret".to_owned(),
    }
}

/// What credentials a global configuration needs: those of the object store,
/// exactly where snapshots are kept in one that is configured.
pub fn wanted_credentials(config: &AppConfig) -> (r: Option<CredentialRequest>)
    ensures
        r is Some <==> config.snapshot.repository_backend == SnapshotRepositoryBackendKind::Oss
            && config.backend.oss is Some,
        r matches Some(request) ==> is_credential_request(request, config.backend.oss->0),
{
    match config.snapshot.repository_backend {
        SnapshotRepositoryBackendKind::Oss => match &config.backend.oss {
            Some(oss) => Some(credential_request(oss)),
            None => None,
        },
        SnapshotRepositoryBackendKind::PosixFs => None,
    }
}

/// The access to an object store with `source`.
pub open spec fn oss_doc_for(doc: OssDoc, source: CredentialSource) -> bool {
    match source {
        CredentialSource::Static { access_key_id, secret_access_key, security_token } => {
            &&& doc.access_key_id == access_key_id
            &&& doc.secret_access_key == secret_access_key
            &&& doc.security_token@ == (match security_token {
                Some(token) => token@,
                None => Seq::empty(),
            })
            &&& doc.credential_process@.len() == 0
        },
        CredentialSource::Process { command } => {
            &&& doc.access_key_id@.len() == 0
            &&& doc.secret_access_key@.len() == 0
            &&& doc.security_token@.len() == 0
            &&& doc.credential_process == command
        },
        CredentialSource::Anonymous => false,
    }
}

/// Why there is no access to the object store, if there is none: the first of
/// these that holds.
pub open spec fn oss_rejection(
    oss: OssBackendConfig,
    source: Result<CredentialSource, Failure>,
) -> Option<Seq<char>> {
    if source is Err {
        Some(source->Err_0@)
    } else if nonblank(text_option(oss.region)) is None {
        Some("backend.oss.region must be set when generating overlaybd OSS config"@)
    } else if source->Ok_0 is Anonymous {
        Some("backend.oss requires non-anonymous credentials"@)
    } else {
        None
    }
}

/// The access of the runtime to the object store `oss`, where `source` is where
/// its credentials come from, or why they come from nowhere: the answer to
/// `credential_request`.
pub fn overlaybd_runtime_oss_config(
    oss: &OssBackendConfig,
    source: Result<CredentialSource, Failure>,
) -> (r: Result<OssDoc, Failure>)
    ensures
        match r {
            Ok(doc) => {
                &&& oss_rejection(*oss, source) is None
                &&& doc.enable
                &&& Some(doc.default_region@) == nonblank(text_option(oss.region))
                &&& doc.default_endpoint@ == trimmed(oss.endpoint@)
                &&& oss_doc_for(doc, source->Ok_0)
            },
            Err(failure) => oss_rejection(*oss, source) == Some(failure@),
        },
{
    let source: CredentialSource = match source {
        Ok(source) => source,
        Err(failure) => {
            return Err(failure);
        },
    };
    let region: String = match &oss.region {
        Some(region) => trim(region.as_str()),
        None => {
            return Err(
                Failure::new(
                    "backend.oss.region must be set when generating overlaybd OSS config".to_owned(),
                ),
            );
        },
    };
    if region.as_str().unicode_len() == 0 {
        return Err(
            Failure::new(
                "backend.oss.region must be set when generating overlaybd OSS config".to_owned(),
            ),
        );
    }
    let endpoint: String = trim(oss.endpoint.as_str());
    match source {
        CredentialSource::Static { access_key_id, secret_access_key, security_token } => {
            let token: String = match security_token {
                Some(token) => token,
                None => String::new(),
            };
            assert(security_token is None ==> token@ =~= Seq::empty());
            Ok(
                OssDoc {
                    enable: true,
                    default_region: region,
                    default_endpoint: endpoint,
                    access_key_id,
                    secret_access_key,
                    security_token: token,
                    credential_process: String::new(),
                },
            )
        },
        CredentialSource::Process { command } => Ok(
            OssDoc {
                enable: true,
                default_region: region,
                default_endpoint: endpoint,
                access_key_id: String::new(),
                secret_access_key: String::new(),
                security_token: String::new(),
                credential_process: command,
            },
        ),
        CredentialSource::Anonymous => Err(
            Failure::new("backend.oss requires non-anonymous credentials".to_owned()),
        ),
    }
}

/// Where a credential file of the container tools may be, the first choice
/// first: `docker_config` and `home` are the values of `DOCKER_CONFIG` and
/// `HOME`.
pub open spec fn credential_candidates(
    docker_config: Option<Seq<u8>>,
    home: Option<Seq<u8>>,
) -> Seq<Seq<u8>> {
    (match docker_config {
        Some(dir) => seq![join_text(dir, "config.json"@)],
        None => Seq::empty(),
    }) + (match home {
        Some(dir) => seq![join_text(dir, ".docker/config.json"@)],
        None => Seq::empty(),
    })
}

/// Where a credential file of the container tools may be.
pub fn docker_credential_candidates(docker_config: Option<FsPath>, home: Option<FsPath>) -> (r: Vec<
    FsPath,
>)
    ensures
        arg_views(r@) == credential_candidates(
            path_option(docker_config),
            path_option(home),
        ),
{
    let ghost wanted = credential_candidates(
        path_option(docker_config),
        path_option(home),
    );
    let mut r: Vec<FsPath> = Vec::new();
    if let Some(dir) = docker_config {
        r.push(dir.join_text("config.json"));
    }
    if let Some(dir) = home {
        r.push(dir.join_text(".docker/config.json"));
    }
    assert(arg_views(r@) =~= wanted);
    r
}

/// `doc` is the global configuration at `path`.
pub open spec fn is_global_config(
    doc: GlobalConfigDoc,
    path: Seq<u8>,
    config: AppConfig,
    p2p_facade_address: Option<Seq<char>>,
    credential_file: Option<Seq<u8>>,
    download: DownloadConfig,
) -> bool {
    &&& doc.log_level == 1
    &&& doc.log_path@ == join_text(
        match parent(path) {
            Some(dir) => dir,
            None => encode_utf8("."@),
        },
        "overlaybd.log"@,
    )
    &&& doc.cache_type@ == "file"@
    &&& doc.cache_dir@ == join_text(config.image.cache.root_dir@, "remote-blocks"@)
    &&& doc.cache_size_gb == config.image.cache.remote_blocks.max_size_gb
    &&& doc.refill_size == 262144
    &&& doc.block_size == 65536
    &&& match credential_file {
        Some(file) => {
            &&& doc.credential.mode@ == "file"@
            &&& doc.credential.path@ == lossy_text(file)
            &&& doc.credential.timeout == 5
        },
        None => {
            &&& doc.credential.mode@.len() == 0
            &&& doc.credential.path@.len() == 0
            &&& doc.credential.timeout == 1
        },
    }
    &&& doc.io_engine == 0
    &&& doc.download == download
    &&& doc.p2p.enable == (p2p_facade_address is Some)
    &&& doc.p2p.address@ == (match p2p_facade_address {
        Some(address) => address,
        None => "http://localhost:9731/accelerator"@,
    })
    &&& !doc.enable_audit
    &&& doc.registry_fs_version@ == "v2"@
}

/// Why there is no global configuration, if there is none.
pub open spec fn global_rejection(
    config: AppConfig,
    source: Result<CredentialSource, Failure>,
) -> Option<Seq<char>> {
    if config.snapshot.repository_backend != SnapshotRepositoryBackendKind::Oss {
        None
    } else {
        match config.backend.oss {
            None => Some(
                "backend.oss config is required when snapshot.repository_backend = oss"@,
            ),
            Some(oss) => oss_rejection(oss, source),
        }
    }
}

/// The global configuration at `path`. The object store is part of it exactly
/// where snapshots are kept in one; `source` is where its credentials come from
/// and is not looked at otherwise.
pub fn generated_overlaybd_global_config(
    path: &FsPath,
    config: &AppConfig,
    p2p_facade_address: Option<&str>,
    credential_file: &Option<FsPath>,
    download: &DownloadConfig,
    source: Result<CredentialSource, Failure>,
) -> (r: Result<GlobalConfigDoc, Failure>)
    ensures
        match r {
            Ok(doc) => {
                &&& global_rejection(*config, source) is None
                &&& is_global_config(
                    doc,
                    path@,
                    *config,
                    match p2p_facade_address {
                        Some(address) => Some(address@),
                        None => None,
                    },
                    path_option(*credential_file),
                    *download,
                )
                &&& doc.oss is Some <==> config.snapshot.repository_backend
                    == SnapshotRepositoryBackendKind::Oss
                &&& doc.oss matches Some(oss) ==> {
                    &&& oss.enable
                    &&& Some(oss.default_region@) == nonblank(
                        text_option(config.backend.oss->0.region),
                    )
                    &&& oss.default_endpoint@ == trimmed(config.backend.oss->0.endpoint@)
                    &&& oss_doc_for(oss, source->Ok_0)
                }
            },
            Err(failure) => global_rejection(*config, source) == Some(failure@),
        },
{
    let dir: FsPath = match path.parent() {
        Some(dir) => dir,
        None => FsPath::from_text("."),
    };
    let cache = config.image_cache_layout();
    let credential: CredentialDoc = match credential_file {
        Some(file) => CredentialDoc {
            mode: "file".to_owned(),
            path: file.to_text_lossy(),
            timeout: 5,
        },
        None => CredentialDoc { mode: String::new(), path: String::new(), timeout: 1 },
    };
    let p2p: P2pDoc = match p2p_facade_address {
        Some(address) => P2pDoc { enable: true, address: address.to_owned() },
        None => P2pDoc {
            enable: false,
            address: "http://localhost:9731/accelerator".to_owned(),
        },
    };
    let oss: Option<OssDoc> = match config.snapshot.repository_backend {
        SnapshotRepositoryBackendKind::Oss => match &config.backend.oss {
            None => {
                return Err(
                    Failure::new(
                        "backend.oss config is required when snapshot.repository_backend = oss".to_owned(),
                    ),
                );
            },
            Some(oss) => match overlaybd_runtime_oss_config(oss, source) {
                Ok(doc) => Some(doc),
                Err(failure) => {
                    return Err(failure);
                },
            },
        },
        SnapshotRepositoryBackendKind::PosixFs => None,
    };
    Ok(
        GlobalConfigDoc {
            log_level: 1,
            log_path: dir.join_text("overlaybd.log"),
            cache_type: "file".to_owned(),
            cache_dir: cache.remote_blocks_dir,
            cache_size_gb: cache.remote_blocks_size_gb,
            refill_size: 262144,
            block_size: 65536,
            credential,
            io_engine: 0,
            download: *download,
            p2p,
            enable_audit: false,
            registry_fs_version: "v2".to_owned(),
            oss,
        },
    )
}

/// A global configuration and where it is written.
#[derive(Debug)]
pub struct GlobalConfigTarget {
    pub path: FsPath,
    pub download: DownloadConfig,
}

/// The two global configurations in the order in which they are written, where
/// `defaults` are the defaults of the runtime: root file systems download as
/// the runtime does unless it is switched on, memory snapshots as configured.
pub fn global_config_targets(config: &AppConfig, defaults: &DownloadConfig) -> (r: (
    GlobalConfigTarget,
    GlobalConfigTarget,
))
    ensures
        r.0.path@ == config.ublk.overlaybd.global_config_path@,
        r.0.download == (DownloadConfig {
            enable: config.ublk.overlaybd.download_enable,
            ..*defaults
        }),
        r.1.path@ == config.memory_snapshot.overlaybd_global_config_path@,
        r.1.download == config.memory_snapshot.background_download.download(*defaults),
        r.0.download.enable == config.ublk.overlaybd.download_enable,
        r.0.download.delay == defaults.delay,
        r.0.download.delay_extra == defaults.delay_extra,
        r.0.download.max_mbps == defaults.max_mbps,
        r.0.download.try_cnt == defaults.try_cnt,
        r.0.download.block_size == defaults.block_size,
        r.0.download.concurrency == defaults.concurrency,
        r.0.download.max_inflight_blocks == defaults.max_inflight_blocks,
        r.0.download.max_concurrent_files == defaults.max_concurrent_files,
        r.1.download.enable == config.memory_snapshot.background_download.enable,
        r.1.download.delay == config.memory_snapshot.background_download.delay,
        r.1.download.delay_extra == config.memory_snapshot.background_download.delay_extra,
        r.1.download.max_mbps == 0,
        r.1.download.try_cnt == config.memory_snapshot.background_download.try_cnt,
        r.1.download.block_size == config.memory_snapshot.background_download.block_size,
        r.1.download.concurrency == config.memory_snapshot.background_download.concurrency,
        r.1.download.max_inflight_blocks == config.memory_snapshot.background_download.max_inflight_blocks,
        r.1.download.max_concurrent_files == defaults.max_concurrent_files,
{
    let rootfs: DownloadConfig = DownloadConfig {
        enable: config.ublk.overlaybd.download_enable,
        ..*defaults
    };
    let memory: DownloadConfig =
        config.memory_snapshot.background_download.to_overlaybd_download_config(defaults);
    (
        GlobalConfigTarget {
            path: config.ublk.overlaybd.global_config_path.clone(),
            download: rootfs,
        },
        GlobalConfigTarget {
            path: config.memory_snapshot.overlaybd_global_config_path.clone(),
            download: memory,
        },
    )
}

/// The steps of writing a global configuration, in order.
#[derive(Debug, Clone, Copy, PartialEq, Eq, Structural)]
pub enum WriteStep {
    Generate,
    /// The directory of the file is made, where it has one.
    MakeDir,
    /// The configuration is put into its serialized form, with a line break at
    /// its end.
    Encode,
    Write,
    /// The file gets `GLOBAL_CONFIG_MODE`.
    SetMode,
}

/// The step after `step` of writing the global configuration at `path`; `None`
/// when it is written.
pub open spec fn write_following(step: WriteStep, path: Seq<u8>) -> Option<WriteStep> {
    match step {
        WriteStep::Generate => if parent(path) is Some {
            Some(WriteStep::MakeDir)
        } else {
            Some(WriteStep::Encode)
        },
        WriteStep::MakeDir => Some(WriteStep::Encode),
        WriteStep::Encode => Some(WriteStep::Write),
        WriteStep::Write => Some(WriteStep::SetMode),
        WriteStep::SetMode => None,
    }
}

impl WriteStep {
    /// The step after this one; `None` when the global configuration is written.
    pub fn next(self, path: &FsPath) -> (r: Option<WriteStep>)
        ensures
            r == write_following(self, path@),
            self is Generate && parent(path@) is Some ==> r == Some(WriteStep::MakeDir),
            self is Generate && parent(path@) is None ==> r == Some(WriteStep::Encode),
            self is MakeDir ==> r == Some(WriteStep::Encode),
            self is Encode ==> r == Some(WriteStep::Write),
            self is Write ==> r == Some(WriteStep::SetMode),
            self is SetMode ==> r is None,
    {
        match self {
            WriteStep::Generate => match path.parent() {
                Some(_) => Some(WriteStep::MakeDir),
                None => Some(WriteStep::Encode),
            },
            WriteStep::MakeDir => Some(WriteStep::Encode),
            WriteStep::Encode => Some(WriteStep::Write),
            WriteStep::Write => Some(WriteStep::SetMode),
            WriteStep::SetMode => None,
        }
    }
}

/// What a failure in `step` says.
pub open spec fn write_failure_text(step: WriteStep, path: Seq<u8>, cause: Seq<char>) -> Seq<char> {
    let inner = match step {
        WriteStep::Generate | WriteStep::Encode => cause,
        WriteStep::MakeDir => in_context(
            "create config parent dir "@ + lossy_text(
                match parent(path) {
                    Some(dir) => dir,
                    None => Seq::empty(),
                },
            ),
            cause,
        ),
        WriteStep::Write => in_context("write overlaybd global config "@ + lossy_text(path), cause),
        WriteStep::SetMode => in_context("set permissions on "@ + lossy_text(path), cause),
    };
    in_context("write overlaybd global config "@ + lossy_text(path), inner)
}

/// The failure of writing the global configuration at `path`.
pub fn global_config_failed(step: WriteStep, path: &FsPath, cause: Failure) -> (r: Failure)
    ensures
        r@ == write_failure_text(step, path@, cause@),
{
    let context: String = joined(
        "write overlaybd global config ",
        path.to_text_lossy().as_str(),
    );
    let inner: Failure = match step {
        WriteStep::Generate => cause,
        WriteStep::Encode => cause,
        WriteStep::MakeDir => {
            let dir: FsPath = match path.parent() {
                Some(dir) => dir,
                None => {
                    let empty = FsPath { bytes: Vec::new() };
                    assert(empty@ =~= Seq::empty());
                    empty
                },
            };
            cause.context(
                joined("create config parent dir ", dir.to_text_lossy().as_str()).as_str(),
            )
        },
        WriteStep::Write => cause.context(context.as_str()),
        WriteStep::SetMode => cause.context(
            joined("set permissions on ", path.to_text_lossy().as_str()).as_str(),
        ),
    };
    inner.context(context.as_str())
}

/// The download of memory snapshots is the configured one, value by value, without
/// a rate limit; the defaults of the runtime count for nothing but the number of
/// files at a time.
pub proof fn law_memory_download_is_configured(
    config: MemorySnapshotBackgroundDownloadConfig,
    defaults: DownloadConfig,
    others: DownloadConfig,
)
    ensures
        config.download(defaults).enable == config.enable,
        config.download(defaults).delay == config.delay,
        config.download(defaults).delay_extra == config.delay_extra,
        config.download(defaults).try_cnt == config.try_cnt,
        config.download(defaults).block_size == config.block_size,
        config.download(defaults).concurrency == config.concurrency,
        config.download(defaults).max_inflight_blocks == config.max_inflight_blocks,
        config.download(defaults).max_mbps == 0,
        config.download(defaults).max_concurrent_files == defaults.max_concurrent_files,
        defaults.max_concurrent_files == others.max_concurrent_files ==> config.download(defaults)
            == config.download(others),
{
}

/// A global configuration holds what it is made from: the log beside the file,
/// the cache and its size, the credential file where there is one, the download,
/// and the address of the artifact exchange exactly where there is one.
pub proof fn law_global_config_is_made_from(
    doc: GlobalConfigDoc,
    path: Seq<u8>,
    config: AppConfig,
    p2p_facade_address: Option<Seq<char>>,
    credential_file: Option<Seq<u8>>,
    download: DownloadConfig,
)
    requires
        is_global_config(doc, path, config, p2p_facade_address, credential_file, download),
    ensures
        doc.log_level == 1,
        parent(path) matches Some(dir) ==> doc.log_path@ == join_text(dir, "overlaybd.log"@),
        parent(path) is None ==> doc.log_path@ == join_text(encode_utf8("."@), "overlaybd.log"@),
        doc.cache_type@ == "file"@,
        doc.cache_dir@ == join_text(config.image.cache.root_dir@, "remote-blocks"@),
        doc.cache_size_gb == config.image.cache.remote_blocks.max_size_gb,
        doc.refill_size == 256 * 1024,
        doc.block_size == 64 * 1024,
        credential_file matches Some(file) ==> doc.credential.mode@ == "file"@
            && doc.credential.path@ == lossy_text(file) && doc.credential.timeout == 5,
        credential_file is None ==> doc.credential.mode@.len() == 0 && doc.credential.path@.len()
            == 0 && doc.credential.timeout == 1,
        doc.io_engine == 0,
        doc.download == download,
        p2p_facade_address matches Some(address) ==> doc.p2p.enable && doc.p2p.address@ == address,
        p2p_facade_address is None ==> !doc.p2p.enable && doc.p2p.address@
            == "http://localhost:9731/accelerator"@,
        !doc.enable_audit,
        doc.registry_fs_version@ == "v2"@,
{
}

/// The access to an object store holds the credentials of their source and no
/// others: static ones as they are, with an empty token where there is none, or
/// the program that gives them; access without credentials is refused.
pub proof fn law_oss_credentials(
    oss: OssBackendConfig,
    source: Result<CredentialSource, Failure>,
    doc: OssDoc,
)
    ensures
        source is Ok && oss_doc_for(doc, source->Ok_0) ==> match source->Ok_0 {
            CredentialSource::Static { access_key_id, secret_access_key, security_token } => {
                &&& doc.access_key_id@ == access_key_id@
                &&& doc.secret_access_key@ == secret_access_key@
                &&& security_token matches Some(token) ==> doc.security_token@ == token@
                &&& security_token is None ==> doc.security_token@.len() == 0
                &&& doc.credential_process@.len() == 0
            },
            CredentialSource::Process { command } => {
                &&& doc.access_key_id@.len() == 0
                &&& doc.secret_access_key@.len() == 0
                &&& doc.security_token@.len() == 0
                &&& doc.credential_process@ == command@
            },
            CredentialSource::Anonymous => false,
        },
        source is Err ==> oss_rejection(oss, source) == Some(source->Err_0@),
        oss_rejection(oss, source) is None <==> source is Ok && !(source->Ok_0 is Anonymous)
            && oss.region is Some && exists|k: int|
            0 <= k < oss.region->0@.len() && !is_white(#[trigger] oss.region->0@[k]),
{
    if oss.region is Some {
        law_trimmed(oss.region->0@);
    }
}

/// A global configuration fails exactly when snapshots are kept in an object
/// store and that is not configured, or its access is refused.
pub proof fn law_global_config_needs_its_store(
    config: AppConfig,
    source: Result<CredentialSource, Failure>,
)
    ensures
        global_rejection(config, source) is None <==> config.snapshot.repository_backend is PosixFs
            || (config.backend.oss is Some && oss_rejection(config.backend.oss->0, source) is None),
{
}

/// The credential file of `DOCKER_CONFIG` comes before that of `HOME`, and there
/// is no other.
pub proof fn law_credential_candidates(docker_config: Option<Seq<u8>>, home: Option<Seq<u8>>)
    ensures
        docker_config is None && home is None ==> credential_candidates(docker_config, home).len()
            == 0,
        docker_config matches Some(dir) ==> credential_candidates(docker_config, home)[0]
            == join_text(dir, "config.json"@),
        home matches Some(dir) ==> credential_candidates(docker_config, home).last() == join_text(
            dir,
            ".docker/config.json"@,
        ),
        docker_config is Some && home is Some ==> credential_candidates(docker_config, home).len()
            == 2,
        (docker_config is Some) != (home is Some) ==> credential_candidates(docker_config, home).len()
            == 1,
{
}

/// A request for credentials has each configured value in its place, refuses
/// access without credentials, and names the configuration in failures.
pub proof fn law_credential_requests(request: CredentialRequest, oss: OssBackendConfig)
    requires
        is_credential_request(request, oss),
    ensures
        text_option(request.access_key_id) == text_option(oss.access_key_id),
        text_option(request.secret_access_key) == text_option(oss.access_key_secret),
        text_option(request.security_token) == text_option(oss.security_token),
        text_option(request.credential_process) == text_option(oss.credential_process),
        request.scope@ == "backend.oss"@,
        !request.allow_anonymous,
        request.required_access_key_id_label@ == "backend.oss.access_key_id"@,
        request.required_secret_access_key_label@ == "backend.oss.access_key_secret"@,
{
}

} // verus!
