//! The release of the overlaybd tools: which one is wanted, whether it is
//! installed, and how it takes the place of the one before.
use crate::config::types::OverlaybdDependencyConfig;
use crate::failure::{Failure, in_context};
use crate::fs_path::{FsPath, file_name, join_text, lossy_text, parent};
use crate::setup::deps::{law_address, placeholder};
use crate::text::{
    after_last_slash, ends_with, has_suffix, joined, joined3, last_segment, replace, replaced,
    text_eq, trim, trimmed,
};
use vstd::prelude::*;
use vstd::utf8::*;

verus! {

/// What is recorded of an installed release.
#[derive(Debug)]
pub struct OverlaybdInstalledRelease {
    pub tag_name: String,
    pub asset_name: String,
    pub digest: Option<String>,
}

/// The model of the record of an installed release.
#[verifier::ext_equal]
pub struct RecordView {
    pub tag_name: Seq<char>,
    pub asset_name: Seq<char>,
    pub digest: Option<Seq<char>>,
}

impl View for OverlaybdInstalledRelease {
    type V = RecordView;

    open spec fn view(&self) -> RecordView {
        RecordView {
            tag_name: self.tag_name@,
            asset_name: self.asset_name@,
            digest: match self.digest {
                Some(digest) => Some(digest@),
                None => None,
            },
        }
    }
}

/// The release that the configuration asks for.
#[derive(Debug)]
pub struct ConfiguredOverlaybdRelease {
    pub tag_name: String,
    pub package_url: String,
}

/// The configured address of the package: `package_url`, or else `url`.
pub open spec fn package_template(overlaybd: OverlaybdDependencyConfig) -> Option<Seq<char>> {
    match overlaybd.package_url {
        Some(url) => Some(trimmed(url@)),
        None => match overlaybd.url {
            Some(url) => Some(trimmed(url@)),
            None => None,
        },
    }
}

/// Why the configuration asks for no release, if it does not.
pub open spec fn release_rejection(overlaybd: OverlaybdDependencyConfig, arch: Seq<char>) -> Option<
    Seq<char>,
> {
    if trimmed(overlaybd.version@).len() == 0 {
        Some("overlaybd.version not set in config"@)
    } else if package_template(overlaybd) is None || package_template(overlaybd)->0.len() == 0 {
        Some("overlaybd.package_url not set in config"@)
    } else if arch != "x86_64"@ && arch != "aarch64"@ {
        Some("unsupported overlaybd release architecture: "@ + arch)
    } else {
        None
    }
}

/// `release` is what the configuration asks for on a host of the architecture
/// `arch`.
pub open spec fn is_configured(
    overlaybd: OverlaybdDependencyConfig,
    arch: Seq<char>,
    release: ConfiguredOverlaybdRelease,
) -> bool {
    &&& release.tag_name@ == trimmed(overlaybd.version@)
    &&& release.package_url@ == replaced(
        replaced(package_template(overlaybd)->0, "{version}"@, trimmed(overlaybd.version@)),
        "{arch}"@,
        arch,
    )
}

/// The release that the configuration asks for on a host of the architecture
/// `arch`.
pub fn configured_overlaybd_release(overlaybd: &OverlaybdDependencyConfig, arch: &str) -> (r: Result<
    ConfiguredOverlaybdRelease,
    Failure,
>)
    ensures
        match r {
            Ok(release) => {
                &&& release_rejection(*overlaybd, arch@) is None
                &&& is_configured(*overlaybd, arch@, release)
            },
            Err(failure) => release_rejection(*overlaybd, arch@) == Some(failure@),
        },
{
    let tag_name: String = trim(overlaybd.version.as_str());
    if tag_name.as_str().unicode_len() == 0 {
        return Err(Failure::new("overlaybd.version not set in config".to_owned()));
    }
    let template: String = match &overlaybd.package_url {
        Some(url) => trim(url.as_str()),
        None => match &overlaybd.url {
            Some(url) => trim(url.as_str()),
            None => {
                return Err(Failure::new("overlaybd.package_url not set in config".to_owned()));
            },
        },
    };
    if template.as_str().unicode_len() == 0 {
        return Err(Failure::new("overlaybd.package_url not set in config".to_owned()));
    }
    if !text_eq(arch, "x86_64") && !text_eq(arch, "aarch64") {
        return Err(Failure::new(joined("unsupported overlaybd release architecture: ", arch)));
    }
    proof {
        reveal_strlit("{version}");
        reveal_strlit("{arch}");
    }
    let versioned: String = replace(template.as_str(), "{version}", tag_name.as_str());
    let package_url: String = replace(versioned.as_str(), "{arch}", arch);
    Ok(ConfiguredOverlaybdRelease { tag_name, package_url })
}

/// Which of the tools of a release are there.
#[derive(Debug, Clone, Copy, PartialEq, Eq, Structural)]
pub struct ToolsOnDisk {
    pub create: bool,
    pub apply: bool,
    pub commit: bool,
    pub resize: bool,
}

/// The tools of a release, in the order in which they are checked.
#[derive(Debug, Clone, Copy, PartialEq, Eq, Structural)]
pub enum OverlaybdTool {
    Create,
    Apply,
    Commit,
    Resize,
}

/// The file name of a tool.
pub open spec fn tool_name(tool: OverlaybdTool) -> Seq<char> {
    match tool {
        OverlaybdTool::Create => "overlaybd-create"@,
        OverlaybdTool::Apply => "overlaybd-apply"@,
        OverlaybdTool::Commit => "overlaybd-commit"@,
        OverlaybdTool::Resize => "overlaybd-resize"@,
    }
}

impl OverlaybdTool {
    /// The file name of this tool.
    pub fn name(self) -> (r: &'static str)
        ensures
            r@ == tool_name(self),
    {
        match self {
            OverlaybdTool::Create => "overlaybd-create",
            OverlaybdTool::Apply => "overlaybd-apply",
            OverlaybdTool::Commit => "overlaybd-commit",
            OverlaybdTool::Resize => "overlaybd-resize",
        }
    }

    /// The path of this tool in `bin_dir`.
    pub fn path(self, bin_dir: &FsPath) -> (r: FsPath)
        ensures
            r@ == join_text(bin_dir@, tool_name(self)),
    {
        bin_dir.join_text(self.name())
    }
}

impl ToolsOnDisk {
    /// The first tool that is not there.
    pub open spec fn first_missing(self) -> Option<OverlaybdTool> {
        if !self.create {
            Some(OverlaybdTool::Create)
        } else if !self.apply {
            Some(OverlaybdTool::Apply)
        } else if !self.commit {
            Some(OverlaybdTool::Commit)
        } else if !self.resize {
            Some(OverlaybdTool::Resize)
        } else {
            None
        }
    }

    /// The first tool that is not there.
    pub fn missing(self) -> (r: Option<OverlaybdTool>)
        ensures
            r == self.first_missing(),
    {
        if !self.create {
            Some(OverlaybdTool::Create)
        } else if !self.apply {
            Some(OverlaybdTool::Apply)
        } else if !self.commit {
            Some(OverlaybdTool::Commit)
        } else if !self.resize {
            Some(OverlaybdTool::Resize)
        } else {
            None
        }
    }
}

/// The record `installed` is that of `release`, with no digest.
pub open spec fn is_release(
    installed: Option<OverlaybdInstalledRelease>,
    release: ConfiguredOverlaybdRelease,
) -> bool {
    installed matches Some(installed) && installed.tag_name@ == release.tag_name@
        && installed.asset_name@ == after_last_slash(release.package_url@) && installed.digest
        is None
}

/// What is done to have a release.
#[derive(Debug)]
pub enum ReleasePlan {
    /// It is installed.
    Current,
    /// The package is downloaded to `package`, in `downloads_dir`, and
    /// installed; then `record` is written to `metadata` and the download is
    /// removed.
    Install {
        downloads_dir: FsPath,
        package: FsPath,
        metadata: FsPath,
        record: OverlaybdInstalledRelease,
    },
}

/// The file that records the installed release.
pub fn metadata_path(overlaybd_dir: &FsPath) -> (r: FsPath)
    ensures
        r@ == join_text(overlaybd_dir@, "tools-release.json"@),
{
    overlaybd_dir.join_text("tools-release.json")
}

/// Where a release keeps its default configuration, under its root.
pub fn default_config_path(root: &FsPath) -> (r: FsPath)
    ensures
        r@ == join_text(root@, "etc/overlaybd/overlaybd.json"@),
{
    root.join_text("etc/overlaybd/overlaybd.json")
}

/// Whether `release` is installed: it is the recorded one, all its tools are
/// there and its default configuration is.
pub open spec fn is_current(
    installed: Option<OverlaybdInstalledRelease>,
    release: ConfiguredOverlaybdRelease,
    tools: ToolsOnDisk,
    default_config_is_file: bool,
) -> bool {
    is_release(installed, release) && tools.first_missing() is None && default_config_is_file
}

/// What is done to have `release` in `overlaybd_dir`: nothing where it is the
/// recorded one, all its tools are there and its default configuration is.
pub fn plan_release(
    release: &ConfiguredOverlaybdRelease,
    overlaybd_dir: &FsPath,
    installed: &Option<OverlaybdInstalledRelease>,
    tools: ToolsOnDisk,
    default_config_is_file: bool,
) -> (r: ReleasePlan)
    ensures
        if is_current(*installed, *release, tools, default_config_is_file) {
            r == ReleasePlan::Current
        } else {
            let asset = after_last_slash(release.package_url@);
            &&& r matches ReleasePlan::Install { downloads_dir, package, metadata, record }
            &&& downloads_dir@ == join_text(overlaybd_dir@, "downloads"@)
            &&& package@ == join_text(downloads_dir@, asset)
            &&& metadata@ == join_text(overlaybd_dir@, "tools-release.json"@)
            &&& is_release(Some(record), *release)
        },
{
    let asset_name: String = last_segment(release.package_url.as_str());
    let recorded: bool = match installed {
        Some(installed) => text_eq(
            installed.tag_name.as_str(),
            release.tag_name.as_str(),
        ) && text_eq(installed.asset_name.as_str(), asset_name.as_str())
            && installed.digest.is_none(),
        None => false,
    };
    if recorded && tools.missing().is_none() && default_config_is_file {
        return ReleasePlan::Current;
    }
    let downloads_dir: FsPath = overlaybd_dir.join_text("downloads");
    let package: FsPath = downloads_dir.join_text(asset_name.as_str());
    ReleasePlan::Install {
        downloads_dir,
        package,
        metadata: metadata_path(overlaybd_dir),
        record: OverlaybdInstalledRelease {
            tag_name: release.tag_name.clone(),
            asset_name,
            digest: None,
        },
    }
}

/// The record of one release is that of another exactly when both have the same
/// tag and the same asset; so a recorded release is not installed again until
/// one of them changes.
pub proof fn law_recorded_release_is_current(
    record: OverlaybdInstalledRelease,
    release: ConfiguredOverlaybdRelease,
    other: ConfiguredOverlaybdRelease,
)
    requires
        is_release(Some(record), release),
    ensures
        is_release(Some(record), other) <==> release.tag_name@ == other.tag_name@
            && after_last_slash(release.package_url@) == after_last_slash(other.package_url@),
{
}

/// The name of a package as text; nothing where it has none.
pub open spec fn package_name(path: Seq<u8>) -> Seq<char> {
    match file_name(path) {
        Some(name) => if valid_utf8(name) {
            decode_utf8(name)
        } else {
            Seq::empty()
        },
        None => Seq::empty(),
    }
}

/// Whether a package can be unpacked: only gzipped tar archives can.
pub fn check_package_format(package: &FsPath) -> (r: Result<(), Failure>)
    ensures
        r is Ok <==> has_suffix(package_name(package@), ".tar.gz"@),
        r matches Err(failure) ==> failure@ == "unsupported overlaybd package format for "@
            + lossy_text(package@) + " (expected .tar.gz)"@,
{
    let name: String = match package.file_name() {
        Some(name) => match name.to_text() {
            Some(text) => text,
            None => String::new(),
        },
        None => String::new(),
    };
    assert(name@ =~= package_name(package@));
    if ends_with(name.as_str(), ".tar.gz") {
        Ok(())
    } else {
        Err(
            Failure::new(
                joined3(
                    "unsupported overlaybd package format for ",
                    package.to_text_lossy().as_str(),
                    " (expected .tar.gz)",
                ),
            ),
        )
    }
}

/// Whether an unpacked release has its programs, where `source_bin` is their
/// directory.
pub fn check_payload_dir(source_bin: &FsPath, is_dir: bool) -> (r: Result<(), Failure>)
    ensures
        r is Ok <==> is_dir,
        r matches Err(failure) ==> failure@ == "overlaybd release payload missing bin dir at "@
            + lossy_text(source_bin@),
{
    if is_dir {
        Ok(())
    } else {
        Err(
            Failure::new(
                joined(
                    "overlaybd release payload missing bin dir at ",
                    source_bin.to_text_lossy().as_str(),
                ),
            ),
        )
    }
}

/// Whether an unpacked release has `tool`, where `source_bin` is the directory
/// of its programs and `is_file` whether the tool is there.
pub fn check_payload_tool(source_bin: &FsPath, tool: OverlaybdTool, is_file: bool) -> (r: Result<
    (),
    Failure,
>)
    ensures
        r is Ok <==> is_file,
        r matches Err(failure) ==> failure@ == "overlaybd release payload missing required tool '"@
            + lossy_text(join_text(source_bin@, tool_name(tool))) + "'"@,
{
    if is_file {
        Ok(())
    } else {
        Err(
            Failure::new(
                joined3(
                    "overlaybd release payload missing required tool '",
                    tool.path(source_bin).to_text_lossy().as_str(),
                    "'",
                ),
            ),
        )
    }
}

/// Whether an unpacked release has its default configuration.
pub fn check_payload_config(packaged: &FsPath, is_file: bool) -> (r: Result<(), Failure>)
    ensures
        r is Ok <==> is_file,
        r matches Err(failure) ==> failure@
            == "overlaybd release payload missing default config at "@ + lossy_text(packaged@),
{
    if is_file {
        Ok(())
    } else {
        Err(
            Failure::new(
                joined(
                    "overlaybd release payload missing default config at ",
                    packaged.to_text_lossy().as_str(),
                ),
            ),
        )
    }
}

/// Where the exchange of the programs stands.
#[derive(Debug)]
pub enum SwapState {
    /// The installed programs are being moved to the backup.
    BackingUp,
    /// The staged programs are being moved into place.
    Installing { had_bin: bool },
    /// The backup is being moved back, because of this failure.
    Restoring { failure: Failure },
    Finished,
}

/// What is done next to exchange the programs.
#[derive(Debug)]
pub enum SwapAction {
    /// `bin` is renamed into the backup.
    Backup,
    /// The staged programs are renamed to `bin`.
    Install,
    /// The backup is renamed to `bin`.
    Restore,
    /// The programs are exchanged.
    Finish,
    /// They are not; the backup is kept where `keep_backup` says so.
    Fail { failure: Failure, keep_backup: bool },
}

/// The first action: a backup where there is something to back up.
pub fn begin_swap(had_bin: bool) -> (r: (SwapState, SwapAction))
    ensures
        had_bin ==> r == (SwapState::BackingUp, SwapAction::Backup),
        !had_bin ==> r == (SwapState::Installing { had_bin: false }, SwapAction::Install),
{
    if had_bin {
        (SwapState::BackingUp, SwapAction::Backup)
    } else {
        (SwapState::Installing { had_bin: false }, SwapAction::Install)
    }
}

/// The text of a failure to install after which the backup could not be moved
/// back either.
pub open spec fn incomplete_text(
    rollback: Seq<char>,
    backup: Seq<u8>,
    install: Seq<char>,
) -> Seq<char> {
    in_context(
        "overlaybd release rollback was incomplete: "@ + in_context(
            "restore previous overlaybd bin dir"@,
            rollback,
        ) + "; previous release backup preserved at '"@ + lossy_text(backup) + "'"@,
        install,
    )
}

/// What follows when the action of `state` ended with `result`, where `backup`
/// is the directory of the backup.
pub open spec fn swap_follows(
    state: SwapState,
    result: Result<(), Failure>,
    backup: Seq<u8>,
    next: SwapState,
    action: SwapAction,
) -> bool {
    match state {
        SwapState::BackingUp => match result {
            Ok(()) => next == (SwapState::Installing { had_bin: true }) && action
                == SwapAction::Install,
            Err(cause) => {
                &&& next == SwapState::Finished
                &&& action matches SwapAction::Fail { failure, keep_backup }
                &&& failure@ == in_context("backup installed overlaybd bin dir"@, cause@)
                &&& !keep_backup
            },
        },
        SwapState::Installing { had_bin } => match result {
            Ok(()) => next == SwapState::Finished && action == SwapAction::Finish,
            Err(cause) => {
                let text = in_context("install staged overlaybd bin dir"@, cause@);
                if had_bin {
                    &&& next matches SwapState::Restoring { failure }
                    &&& failure@ == text
                    &&& action == SwapAction::Restore
                } else {
                    &&& next == SwapState::Finished
                    &&& action matches SwapAction::Fail { failure, keep_backup }
                    &&& failure@ == text
                    &&& !keep_backup
                }
            },
        },
        SwapState::Restoring { failure: install } => {
            &&& next == SwapState::Finished
            &&& action matches SwapAction::Fail { failure, keep_backup }
            &&& match result {
                Ok(()) => failure@ == install@ && !keep_backup,
                Err(rollback) => failure@ == incomplete_text(rollback@, backup, install@)
                    && keep_backup,
            }
        },
        SwapState::Finished => false,
    }
}

/// What follows when the action of `state` ended with `result`.
pub fn swap_step(state: SwapState, result: Result<(), Failure>, backup: &FsPath) -> (r: (
    SwapState,
    SwapAction,
))
    requires
        !(state is Finished),
    ensures
        swap_follows(state, result, backup@, r.0, r.1),
{
    match state {
        SwapState::BackingUp => match result {
            Ok(()) => (SwapState::Installing { had_bin: true }, SwapAction::Install),
            Err(cause) => (
                SwapState::Finished,
                SwapAction::Fail {
                    failure: cause.context("backup installed overlaybd bin dir"),
                    keep_backup: false,
                },
            ),
        },
        SwapState::Installing { had_bin } => match result {
            Ok(()) => (SwapState::Finished, SwapAction::Finish),
            Err(cause) => {
                let failure: Failure = cause.context("install staged overlaybd bin dir");
                if had_bin {
                    (SwapState::Restoring { failure }, SwapAction::Restore)
                } else {
                    (SwapState::Finished, SwapAction::Fail { failure, keep_backup: false })
                }
            },
        },
        SwapState::Restoring { failure } => match result {
            Ok(()) => (SwapState::Finished, SwapAction::Fail { failure, keep_backup: false }),
            Err(rollback) => {
                let why: Failure = rollback.context("restore previous overlaybd bin dir");
                let head: String = joined3(
                    "overlaybd release rollback was incomplete: ",
                    why.message().as_str(),
                    "; previous release backup preserved at '",
                );
                let context: String = joined3(
                    head.as_str(),
                    backup.to_text_lossy().as_str(),
                    "'",
                );
                (
                    SwapState::Finished,
                    SwapAction::Fail {
                        failure: failure.context(context.as_str()),
                        keep_backup: true,
                    },
                )
            },
        },
        SwapState::Finished => (SwapState::Finished, SwapAction::Finish),
    }
}

/// Which programs are where during an exchange: in place and in the backup.
#[verifier::ext_equal]
pub struct BinDirs<T> {
    pub in_place: Option<T>,
    pub backup: Option<T>,
}

/// The directories after `action` was done, with success or without; `staged`
/// are the new programs. A rename that fails moves nothing.
pub open spec fn swap_effect<T>(
    dirs: BinDirs<T>,
    action: SwapAction,
    staged: T,
    succeeded: bool,
) -> BinDirs<T> {
    if !succeeded {
        dirs
    } else {
        match action {
            SwapAction::Backup => BinDirs { in_place: None, backup: dirs.in_place },
            SwapAction::Install => BinDirs { in_place: Some(staged), backup: dirs.backup },
            SwapAction::Restore => BinDirs { in_place: dirs.backup, backup: None },
            _ => dirs,
        }
    }
}

/// An exchange that begins with `before` in place loses nothing: where the
/// backup fails, and where the new programs cannot be moved into place but the
/// old ones can be moved back, the old ones are in place again; where that
/// fails too, they are in the backup, which is kept.
pub proof fn law_swap_keeps_previous<T>(
    before: T,
    staged: T,
    backed_up: Result<(), Failure>,
    installed: Result<(), Failure>,
    restored: Result<(), Failure>,
    backup: Seq<u8>,
    state1: SwapState,
    action1: SwapAction,
    state2: SwapState,
    action2: SwapAction,
    state3: SwapState,
    action3: SwapAction,
)
    requires
        swap_follows(SwapState::BackingUp, backed_up, backup, state1, action1),
        backed_up is Ok ==> swap_follows(state1, installed, backup, state2, action2),
        backed_up is Ok && installed is Err ==> swap_follows(
            state2,
            restored,
            backup,
            state3,
            action3,
        ),
    ensures
        ({
            let dirs0 = BinDirs { in_place: Some(before), backup: None };
            let dirs1 = swap_effect(dirs0, SwapAction::Backup, staged, backed_up is Ok);
            let dirs2 = swap_effect(dirs1, action1, staged, installed is Ok);
            let dirs3 = swap_effect(dirs2, action2, staged, restored is Ok);
            &&& backed_up is Err ==> action1 is Fail && dirs1.in_place == Some(before)
            &&& backed_up is Ok && installed is Ok ==> action2 == SwapAction::Finish
                && dirs2.in_place == Some(staged)
            &&& backed_up is Ok && installed is Err && restored is Ok ==> action3 is Fail
                && dirs3.in_place == Some(before)
            &&& backed_up is Ok && installed is Err && restored is Err ==> (action3
                matches SwapAction::Fail { keep_backup, .. } && keep_backup) && dirs3.backup
                == Some(before)
        }),
{
}

/// What is at the path of the shared libraries of older releases.
#[derive(Debug)]
pub enum LegacyLib {
    NotFound,
    /// A directory, not a link to one.
    Directory,
    /// A file or a link.
    OtherKind,
    /// It could not be looked at.
    Failed(Failure),
}

/// What is done with the shared libraries of older releases.
#[derive(Debug, Clone, Copy, PartialEq, Eq, Structural)]
pub enum LegacyLibAction {
    Nothing,
    RemoveTree,
    RemoveFile,
}

/// What is done with what is at `legacy_lib`.
pub fn legacy_lib_action(legacy_lib: &FsPath, found: LegacyLib) -> (r: Result<
    LegacyLibAction,
    Failure,
>)
    ensures
        match found {
            LegacyLib::NotFound => r matches Ok(action) && action == LegacyLibAction::Nothing,
            LegacyLib::Directory => r matches Ok(action) && action == LegacyLibAction::RemoveTree,
            LegacyLib::OtherKind => r matches Ok(action) && action == LegacyLibAction::RemoveFile,
            LegacyLib::Failed(cause) => r matches Err(failure) && failure@ == in_context(
                "inspect legacy overlaybd lib "@ + lossy_text(legacy_lib@),
                cause@,
            ),
        },
{
    match found {
        LegacyLib::NotFound => Ok(LegacyLibAction::Nothing),
        LegacyLib::Directory => Ok(LegacyLibAction::RemoveTree),
        LegacyLib::OtherKind => Ok(LegacyLibAction::RemoveFile),
        LegacyLib::Failed(cause) => Err(
            cause.context(
                joined(
                    "inspect legacy overlaybd lib ",
                    legacy_lib.to_text_lossy().as_str(),
                ).as_str(),
            ),
        ),
    }
}

/// What is at the path of the system configuration.
#[derive(Debug, Clone, Copy, PartialEq, Eq, Structural)]
pub enum Destination {
    Absent,
    File,
    OtherKind,
}

/// The permissions of the system configuration: its group can read it.
pub const SYSTEM_CONFIG_MODE: u32 = 0o640;

/// The permissions of its directory.
pub const SYSTEM_CONFIG_DIR_MODE: u32 = 0o750;

/// The steps that install the system configuration, in order.
#[derive(Debug, Clone, Copy, PartialEq, Eq, Structural)]
pub enum SystemConfigStep {
    /// The destination is looked at.
    Inspect,
    MakeDir,
    /// The directory gets the group of the runtime.
    GroupDir,
    /// The directory gets `SYSTEM_CONFIG_DIR_MODE`.
    ModeDir,
    /// The destination is looked at again, and the source.
    Choose,
    Copy,
    /// The file gets the group of the runtime.
    GroupFile,
    /// The file gets `SYSTEM_CONFIG_MODE`.
    ModeFile,
    Done,
}

/// Why no system configuration is installed, if that shows in `step`.
pub open spec fn system_config_rejection(
    step: SystemConfigStep,
    source: Seq<u8>,
    destination: Seq<u8>,
    found: Destination,
    source_is_file: bool,
) -> Option<Seq<char>> {
    match step {
        SystemConfigStep::Inspect => if found == Destination::OtherKind {
            Some("overlaybd system config is not a regular file: "@ + lossy_text(destination))
        } else if parent(destination) is None {
            Some("overlaybd system config path has no parent directory"@)
        } else {
            None
        },
        SystemConfigStep::Choose => if found != Destination::File && !source_is_file {
            Some("staged overlaybd default config is missing: "@ + lossy_text(source))
        } else {
            None
        },
        _ => None,
    }
}

/// The step after `step`. A configuration that is there keeps its content.
pub open spec fn system_config_following(
    step: SystemConfigStep,
    found: Destination,
) -> SystemConfigStep {
    match step {
        SystemConfigStep::Inspect => SystemConfigStep::MakeDir,
        SystemConfigStep::MakeDir => SystemConfigStep::GroupDir,
        SystemConfigStep::GroupDir => SystemConfigStep::ModeDir,
        SystemConfigStep::ModeDir => SystemConfigStep::Choose,
        SystemConfigStep::Choose => if found == Destination::File {
            SystemConfigStep::GroupFile
        } else {
            SystemConfigStep::Copy
        },
        SystemConfigStep::Copy => SystemConfigStep::GroupFile,
        SystemConfigStep::GroupFile => SystemConfigStep::ModeFile,
        SystemConfigStep::ModeFile => SystemConfigStep::Done,
        SystemConfigStep::Done => SystemConfigStep::Done,
    }
}

/// The step after `step`, where `found` is what is at the destination and
/// `source_is_file` whether the staged configuration is a file.
pub fn system_config_next(
    step: SystemConfigStep,
    source: &FsPath,
    destination: &FsPath,
    found: Destination,
    source_is_file: bool,
) -> (r: Result<SystemConfigStep, Failure>)
    ensures
        match system_config_rejection(step, source@, destination@, found, source_is_file) {
            Some(text) => r matches Err(failure) && failure@ == text,
            None => r matches Ok(next) && next == system_config_following(step, found),
        },
{
    match step {
        SystemConfigStep::Inspect => {
            if found == Destination::OtherKind {
                return Err(
                    Failure::new(
                        joined(
                            "overlaybd system config is not a regular file: ",
                            destination.to_text_lossy().as_str(),
                        ),
                    ),
                );
            }
            match destination.parent() {
                None => Err(
                    Failure::new(
                        "overlaybd system config path has no parent directory".to_owned(),
                    ),
                ),
                Some(_) => Ok(SystemConfigStep::MakeDir),
            }
        },
        SystemConfigStep::MakeDir => Ok(SystemConfigStep::GroupDir),
        SystemConfigStep::GroupDir => Ok(SystemConfigStep::ModeDir),
        SystemConfigStep::ModeDir => Ok(SystemConfigStep::Choose),
        SystemConfigStep::Choose => if found == Destination::File {
            Ok(SystemConfigStep::GroupFile)
        } else if !source_is_file {
            Err(
                Failure::new(
                    joined(
                        "staged overlaybd default config is missing: ",
                        source.to_text_lossy().as_str(),
                    ),
                ),
            )
        } else {
            Ok(SystemConfigStep::Copy)
        },
        SystemConfigStep::Copy => Ok(SystemConfigStep::GroupFile),
        SystemConfigStep::GroupFile => Ok(SystemConfigStep::ModeFile),
        SystemConfigStep::ModeFile => Ok(SystemConfigStep::Done),
        SystemConfigStep::Done => Ok(SystemConfigStep::Done),
    }
}

/// What a failed action of a step says it was doing.
pub open spec fn system_config_context(
    step: SystemConfigStep,
    source: Seq<u8>,
    destination: Seq<u8>,
) -> Seq<char> {
    let dir = match parent(destination) {
        Some(dir) => dir,
        None => Seq::empty(),
    };
    match step {
        SystemConfigStep::MakeDir => "create "@ + lossy_text(dir),
        SystemConfigStep::GroupDir => "set runtime group ownership on "@ + lossy_text(dir),
        SystemConfigStep::ModeDir => "set permissions on "@ + lossy_text(dir),
        SystemConfigStep::Copy => "install overlaybd default config "@ + lossy_text(source)
            + " -> "@ + lossy_text(destination),
        SystemConfigStep::GroupFile => "set runtime group ownership on "@ + lossy_text(
            destination,
        ),
        _ => "set permissions on "@ + lossy_text(destination),
    }
}

/// The failure of a step whose action failed with `cause`.
pub fn system_config_failed(
    step: SystemConfigStep,
    source: &FsPath,
    destination: &FsPath,
    cause: Failure,
) -> (r: Failure)
    ensures
        r@ == in_context(system_config_context(step, source@, destination@), cause@),
{
    let dir: FsPath = match destination.parent() {
        Some(dir) => dir,
        None => {
            let empty = FsPath { bytes: Vec::new() };
            assert(empty@ =~= Seq::empty());
            empty
        },
    };
    let dir_shown: String = dir.to_text_lossy();
    let file_shown: String = destination.to_text_lossy();
    let context: String = match step {
        SystemConfigStep::MakeDir => joined("create ", dir_shown.as_str()),
        SystemConfigStep::GroupDir => joined(
            "set runtime group ownership on ",
            dir_shown.as_str(),
        ),
        SystemConfigStep::ModeDir => joined("set permissions on ", dir_shown.as_str()),
        SystemConfigStep::Copy => {
            let head: String = joined3(
                "install overlaybd default config ",
                source.to_text_lossy().as_str(),
                " -> ",
            );
            joined(head.as_str(), file_shown.as_str())
        },
        SystemConfigStep::GroupFile => joined(
            "set runtime group ownership on ",
            file_shown.as_str(),
        ),
        _ => joined("set permissions on ", file_shown.as_str()),
    };
    cause.context(context.as_str())
}

/// A system configuration that is a file when it is chosen is never written
/// over, and every installation that ends has given the file its group and its
/// permissions.
pub proof fn law_system_config_is_retained(
    step: SystemConfigStep,
    source: Seq<u8>,
    destination: Seq<u8>,
    found: Destination,
    source_is_file: bool,
)
    ensures
        system_config_following(step, found) == SystemConfigStep::Copy ==> step
            == SystemConfigStep::Choose && found != Destination::File,
        system_config_following(step, found) == SystemConfigStep::Done ==> step
            == SystemConfigStep::ModeFile || step == SystemConfigStep::Done,
        system_config_following(step, found) == SystemConfigStep::ModeFile ==> step
            == SystemConfigStep::GroupFile,
        step == SystemConfigStep::Choose && found == Destination::File
            ==> system_config_rejection(step, source, destination, found, source_is_file) is None,
{
}

/// A release is asked for exactly where there is a version, an address and an
/// architecture that has releases; the address of the package outweighs the other.
pub proof fn law_configured_releases(overlaybd: OverlaybdDependencyConfig, arch: Seq<char>)
    ensures
        overlaybd.package_url matches Some(url) ==> package_template(overlaybd) == Some(
            trimmed(url@),
        ),
        overlaybd.package_url is None && overlaybd.url is Some ==> package_template(overlaybd)
            == Some(trimmed(overlaybd.url->0@)),
        overlaybd.package_url is None && overlaybd.url is None ==> package_template(overlaybd)
            is None,
        release_rejection(overlaybd, arch) is None <==> trimmed(overlaybd.version@).len() > 0 && (
        match overlaybd.package_url {
            Some(url) => trimmed(url@).len() > 0,
            None => overlaybd.url is Some && trimmed(overlaybd.url->0@).len() > 0,
        }) && (arch == "x86_64"@ || arch == "aarch64"@),
{
}

/// The package of a release is found at the configured address, with the version
/// and the architecture in place of their placeholders.
pub proof fn law_release_address(
    overlaybd: OverlaybdDependencyConfig,
    arch: Seq<char>,
    release: ConfiguredOverlaybdRelease,
    head: Seq<char>,
    middle: Seq<char>,
    tail: Seq<char>,
)
    requires
        is_configured(overlaybd, arch, release),
        package_template(overlaybd) == Some(
            head + "{version}"@ + middle + "{arch}"@ + tail,
        ),
        forall|k: int| 0 <= k < head.len() ==> #[trigger] head[k] != '{',
        forall|k: int| 0 <= k < middle.len() ==> #[trigger] middle[k] != '{',
        forall|k: int| 0 <= k < tail.len() ==> #[trigger] tail[k] != '{',
        forall|k: int|
            0 <= k < trimmed(overlaybd.version@).len() ==> #[trigger] trimmed(
                overlaybd.version@,
            )[k] != '{',
    ensures
        release.tag_name@ == trimmed(overlaybd.version@),
        release.package_url@ == head + trimmed(overlaybd.version@) + middle + arch + tail,
{
    reveal_strlit("{version}");
    reveal_strlit("{arch}");
    reveal_strlit("version");
    reveal_strlit("arch");
    reveal_strlit("{");
    reveal_strlit("}");
    assert(placeholder("version"@) =~= "{version}"@);
    assert(placeholder("arch"@) =~= "{arch}"@);
    law_address(head, middle, tail, trimmed(overlaybd.version@), arch);
}

/// A release is installed exactly where its tag and the last part of its address
/// are recorded, without a digest, and all four tools and the default
/// configuration are there.
pub proof fn law_current_releases(
    installed: Option<OverlaybdInstalledRelease>,
    release: ConfiguredOverlaybdRelease,
    tools: ToolsOnDisk,
    default_config_is_file: bool,
)
    ensures
        is_current(installed, release, tools, default_config_is_file) <==> installed is Some
            && installed->0.tag_name@ == release.tag_name@ && installed->0.asset_name@
            == after_last_slash(release.package_url@) && installed->0.digest is None && tools.create
            && tools.apply && tools.commit && tools.resize && default_config_is_file,
        tools.first_missing() is None <==> tools.create && tools.apply && tools.commit
            && tools.resize,
        tools.first_missing() matches Some(tool) ==> match tool {
            OverlaybdTool::Create => !tools.create,
            OverlaybdTool::Apply => tools.create && !tools.apply,
            OverlaybdTool::Commit => tools.create && tools.apply && !tools.commit,
            OverlaybdTool::Resize => tools.create && tools.apply && tools.commit && !tools.resize,
        },
{
}

/// The four tools have four different names.
pub proof fn law_tools_differ(a: OverlaybdTool, b: OverlaybdTool)
    requires
        a != b,
    ensures
        tool_name(a) != tool_name(b),
{
    reveal_strlit("overlaybd-create");
    reveal_strlit("overlaybd-apply");
    reveal_strlit("overlaybd-commit");
    reveal_strlit("overlaybd-resize");
    if tool_name(a) == tool_name(b) {
        assert(tool_name(a).len() == tool_name(b).len());
        assert(tool_name(a)[10] == tool_name(b)[10]);
        assert(tool_name(a)[11] == tool_name(b)[11]);
    }
}

/// How an exchange goes on: what was there is moved to the backup, then the new
/// programs are moved into place; where that fails what was there is moved back,
/// and the backup is kept exactly where that fails too.
pub proof fn law_swap_steps(
    result: Result<(), Failure>,
    had_bin: bool,
    failure: Failure,
    backup: Seq<u8>,
    next: SwapState,
    action: SwapAction,
)
    ensures
        swap_follows(SwapState::BackingUp, result, backup, next, action) ==> (result is Ok ==> next
            == (SwapState::Installing { had_bin: true }) && action is Install) && (result is Err
            ==> next is Finished && (action matches SwapAction::Fail { keep_backup, .. }
            && !keep_backup)),
        swap_follows(SwapState::Installing { had_bin }, result, backup, next, action) ==> (result
            is Ok ==> next is Finished && action is Finish) && (result is Err && had_bin ==> next
            is Restoring && action is Restore) && (result is Err && !had_bin ==> next is Finished
            && (action matches SwapAction::Fail { keep_backup, .. } && !keep_backup)),
        swap_follows(SwapState::Restoring { failure }, result, backup, next, action) ==> next
            is Finished && (action matches SwapAction::Fail { failure: told, keep_backup } && (
        keep_backup <==> result is Err) && (result is Ok ==> told@ == failure@)),
{
}

/// How the system configuration is installed: a destination that is no file is
/// refused before anything is done; the directory is made and gets its group and
/// permissions; a configuration that is there stays, and else the staged one is
/// copied where it is a file; the file gets its group and permissions last.
pub proof fn law_system_config_steps(
    step: SystemConfigStep,
    source: Seq<u8>,
    destination: Seq<u8>,
    found: Destination,
    source_is_file: bool,
)
    ensures
        system_config_rejection(step, source, destination, found, source_is_file) is Some <==> (step
            is Inspect && (found is OtherKind || parent(destination) is None)) || (step is Choose
            && !(found is File) && !source_is_file),
        system_config_following(SystemConfigStep::Inspect, found) is MakeDir,
        system_config_following(SystemConfigStep::MakeDir, found) is GroupDir,
        system_config_following(SystemConfigStep::GroupDir, found) is ModeDir,
        system_config_following(SystemConfigStep::ModeDir, found) is Choose,
        found is File ==> system_config_following(SystemConfigStep::Choose, found) is GroupFile,
        !(found is File) ==> system_config_following(SystemConfigStep::Choose, found) is Copy,
        system_config_following(SystemConfigStep::Copy, found) is GroupFile,
        system_config_following(SystemConfigStep::GroupFile, found) is ModeFile,
        system_config_following(SystemConfigStep::ModeFile, found) is Done,
{
}

/// The name of a package is the last part of its path, where that is text.
pub proof fn law_package_name(path: Seq<u8>)
    ensures
        file_name(path) matches Some(name) ==> (valid_utf8(name) ==> package_name(path)
            == decode_utf8(name)),
        file_name(path) is None ==> package_name(path).len() == 0,
        file_name(path) matches Some(name) ==> (!valid_utf8(name) ==> package_name(path).len()
            == 0),
{
}

} // verus!
