//! Installing a release of the overlaybd tools, step by step: the package is
//! downloaded and unpacked, its programs are checked and exchanged with those
//! before, and only then is anything of the old release removed. The caller
//! performs the step and reports what happened.
use crate::failure::{Failure, in_context};
use crate::fs_path::{FsPath, join_text, lossy_text, parent};
use crate::setup::release::{
    LegacyLib, LegacyLibAction, OverlaybdTool, ReleasePlan, SwapAction, SwapState, begin_swap,
    check_package_format, check_payload_config, check_payload_dir, check_payload_tool,
    default_config_path, legacy_lib_action, metadata_path, package_name, swap_follows, swap_step,
    tool_name,
};
use crate::text::{has_suffix, joined, joined3};
use vstd::prelude::*;

verus! {

/// The permissions of a tool.
pub const TOOL_MODE: u32 = 0o755;

/// Where an installation works.
#[derive(Debug)]
pub struct InstallPlaces {
    /// Where the release is installed.
    pub overlaybd_dir: FsPath,
    /// The downloaded package.
    pub package: FsPath,
    /// Where it is unpacked; known once the directory was made.
    pub extracted: FsPath,
    /// Where the programs before are kept meanwhile; known once the directory
    /// was made.
    pub backup: FsPath,
}

impl InstallPlaces {
    /// The unpacked programs.
    pub open spec fn spec_source_bin(self) -> Seq<u8> {
        join_text(self.extracted@, "bin"@)
    }

    /// The unpacked default configuration.
    pub open spec fn spec_source_config(self) -> Seq<u8> {
        join_text(self.extracted@, "etc/overlaybd/overlaybd.json"@)
    }

    /// The installed default configuration.
    pub open spec fn spec_config(self) -> Seq<u8> {
        join_text(self.overlaybd_dir@, "etc/overlaybd/overlaybd.json"@)
    }

    /// The directory of the installed default configuration.
    pub open spec fn spec_config_dir(self) -> Seq<u8> {
        match parent(self.spec_config()) {
            Some(dir) => dir,
            None => Seq::empty(),
        }
    }

    /// The installed programs.
    pub fn bin(&self) -> (r: FsPath)
        ensures
            r@ == join_text(self.overlaybd_dir@, "bin"@),
    {
        self.overlaybd_dir.join_text("bin")
    }

    /// The shared libraries of older releases.
    pub fn lib(&self) -> (r: FsPath)
        ensures
            r@ == join_text(self.overlaybd_dir@, "lib"@),
    {
        self.overlaybd_dir.join_text("lib")
    }

    /// The unpacked programs.
    pub fn source_bin(&self) -> (r: FsPath)
        ensures
            r@ == self.spec_source_bin(),
    {
        self.extracted.join_text("bin")
    }

    /// The directory of the installed default configuration.
    pub fn config_dir(&self) -> (r: FsPath)
        ensures
            r@ == self.spec_config_dir(),
    {
        match default_config_path(&self.overlaybd_dir).parent() {
            Some(dir) => dir,
            None => {
                let empty = FsPath { bytes: Vec::new() };
                assert(empty@ =~= Seq::empty());
                empty
            },
        }
    }
}

/// The steps of an installation.
#[derive(Debug)]
pub enum InstallStage {
    /// The directory of the download is made.
    MakeDownloads,
    Download,
    /// The directory is made in which the package is unpacked.
    MakeExtractDir,
    OpenPackage,
    Unpack,
    /// Is the directory of the programs in the package?
    FindBin,
    MakeDir,
    /// The directory is made in which the programs are staged.
    MakeStaging,
    /// The programs are copied to the staging directory.
    CopyBin,
    /// Is this tool a file in the staging directory?
    FindTool(OverlaybdTool),
    /// This tool gets `TOOL_MODE`.
    ModeTool(OverlaybdTool),
    /// The directory is made in which the programs before are kept.
    MakeBackup,
    /// Are there programs before?
    FindInstalled,
    /// The programs are exchanged.
    Swap(SwapState),
    /// The shared libraries of older releases are looked at.
    FindLib,
    RemoveLib(LegacyLibAction),
    /// Is the default configuration in the package?
    FindConfig,
    MakeConfigDir,
    CopyConfig,
    /// The record of the release is put into its serialized form.
    EncodeRecord,
    WriteRecord,
    /// The downloaded package is removed, if that is possible.
    RemovePackage,
    /// The directory of the download is removed, if that is possible.
    RemoveDownloads,
    Done,
}

/// What happened in a step of an installation.
#[derive(Debug)]
pub enum InstallEvent {
    Succeeded,
    Failed(Failure),
    /// Whether what was looked for is there.
    Found(bool),
    Lib(LegacyLib),
}

/// What follows after a step of an installation.
#[derive(Debug)]
pub enum InstallNext {
    Go(InstallStage),
    /// The installation failed; the backup is kept where `keep_backup` says so.
    Fail { failure: Failure, keep_backup: bool },
}

/// Whether `event` can happen in `stage`.
pub open spec fn install_expects(stage: InstallStage, event: InstallEvent) -> bool {
    match stage {
        InstallStage::FindBin
        | InstallStage::FindTool(_)
        | InstallStage::FindInstalled
        | InstallStage::FindConfig => event is Found,
        InstallStage::FindLib => event is Lib,
        InstallStage::Swap(state) => !(state is Finished) && (event is Succeeded || event
            is Failed),
        InstallStage::Done => false,
        _ => event is Succeeded || event is Failed,
    }
}

/// What is looked at after the permissions of `tool` were set: the next tool,
/// or after the last one the exchange begins.
pub open spec fn after_tool(tool: OverlaybdTool) -> InstallStage {
    match tool {
        OverlaybdTool::Create => InstallStage::FindTool(OverlaybdTool::Apply),
        OverlaybdTool::Apply => InstallStage::FindTool(OverlaybdTool::Commit),
        OverlaybdTool::Commit => InstallStage::FindTool(OverlaybdTool::Resize),
        OverlaybdTool::Resize => InstallStage::MakeBackup,
    }
}

/// The step after `stage` when all went well. The exchange has steps of its own,
/// between `FindInstalled` and `FindLib`.
pub open spec fn install_following(stage: InstallStage) -> InstallStage {
    match stage {
        InstallStage::MakeDownloads => InstallStage::Download,
        InstallStage::Download => InstallStage::MakeExtractDir,
        InstallStage::MakeExtractDir => InstallStage::OpenPackage,
        InstallStage::OpenPackage => InstallStage::Unpack,
        InstallStage::Unpack => InstallStage::FindBin,
        InstallStage::FindBin => InstallStage::MakeDir,
        InstallStage::MakeDir => InstallStage::MakeStaging,
        InstallStage::MakeStaging => InstallStage::CopyBin,
        InstallStage::CopyBin => InstallStage::FindTool(OverlaybdTool::Create),
        InstallStage::FindTool(tool) => InstallStage::ModeTool(tool),
        InstallStage::ModeTool(tool) => after_tool(tool),
        InstallStage::MakeBackup => InstallStage::FindInstalled,
        InstallStage::FindInstalled => InstallStage::FindLib,
        InstallStage::Swap(_) => InstallStage::FindLib,
        InstallStage::FindLib => InstallStage::FindConfig,
        InstallStage::RemoveLib(_) => InstallStage::FindConfig,
        InstallStage::FindConfig => InstallStage::MakeConfigDir,
        InstallStage::MakeConfigDir => InstallStage::CopyConfig,
        InstallStage::CopyConfig => InstallStage::EncodeRecord,
        InstallStage::EncodeRecord => InstallStage::WriteRecord,
        InstallStage::WriteRecord => InstallStage::RemovePackage,
        InstallStage::RemovePackage => InstallStage::RemoveDownloads,
        InstallStage::RemoveDownloads => InstallStage::Done,
        InstallStage::Done => InstallStage::Done,
    }
}

/// What a step that failed with `cause` says.
pub open spec fn install_failure_text(
    places: InstallPlaces,
    stage: InstallStage,
    cause: Seq<char>,
) -> Seq<char> {
    let dir = places.overlaybd_dir@;
    match stage {
        InstallStage::MakeDownloads => in_context(
            "create overlaybd downloads dir '"@ + lossy_text(join_text(dir, "downloads"@)) + "'"@,
            cause,
        ),
        InstallStage::MakeExtractDir => in_context("create temp dir for overlaybd release"@, cause),
        InstallStage::OpenPackage => in_context(
            "open overlaybd package "@ + lossy_text(places.package@),
            cause,
        ),
        InstallStage::Unpack => in_context(
            "extract overlaybd package "@ + lossy_text(places.package@),
            cause,
        ),
        InstallStage::MakeDir => in_context(
            "create overlaybd dir '"@ + lossy_text(dir) + "'"@,
            cause,
        ),
        InstallStage::MakeStaging => in_context("create overlaybd release staging dir"@, cause),
        InstallStage::MakeBackup => in_context("create overlaybd release backup dir"@, cause),
        InstallStage::RemoveLib(_) => in_context(
            "remove legacy overlaybd lib "@ + lossy_text(join_text(dir, "lib"@)),
            cause,
        ),
        InstallStage::MakeConfigDir => in_context(
            "create overlaybd config dir '"@ + lossy_text(places.spec_config_dir()) + "'"@,
            cause,
        ),
        InstallStage::CopyConfig => in_context(
            "stage overlaybd default config '"@ + lossy_text(places.spec_source_config())
                + "' -> '"@ + lossy_text(places.spec_config()) + "'"@,
            cause,
        ),
        InstallStage::WriteRecord => in_context(
            "write overlaybd release metadata '"@ + lossy_text(
                join_text(dir, "tools-release.json"@),
            ) + "'"@,
            cause,
        ),
        _ => cause,
    }
}

/// What a step says that did not find what it looked for.
pub open spec fn not_found_text(places: InstallPlaces, stage: InstallStage) -> Seq<char> {
    match stage {
        InstallStage::FindBin => "overlaybd release payload missing bin dir at "@ + lossy_text(
            places.spec_source_bin(),
        ),
        InstallStage::FindTool(tool) => "overlaybd release payload missing required tool '"@
            + lossy_text(join_text(places.spec_source_bin(), tool_name(tool))) + "'"@,
        _ => "overlaybd release payload missing default config at "@ + lossy_text(
            places.spec_source_config(),
        ),
    }
}

/// The installation ends with a failure that says `text`, and no backup is kept.
pub open spec fn fails_with(next: InstallNext, text: Seq<char>) -> bool {
    next matches InstallNext::Fail { failure, keep_backup } && failure@ == text && !keep_backup
}

/// What follows when a step of the exchange ended with `result`: its next step,
/// or what is done with the old shared libraries once it is finished.
pub open spec fn swap_goes_on(
    state: SwapState,
    result: Result<(), Failure>,
    backup: Seq<u8>,
    next: InstallNext,
) -> bool {
    match next {
        InstallNext::Go(InstallStage::Swap(following)) => {
            ||| swap_follows(state, result, backup, following, SwapAction::Install)
            ||| swap_follows(state, result, backup, following, SwapAction::Restore)
        },
        InstallNext::Go(InstallStage::FindLib) => swap_follows(
            state,
            result,
            backup,
            SwapState::Finished,
            SwapAction::Finish,
        ),
        InstallNext::Go(_) => false,
        InstallNext::Fail { failure, keep_backup } => swap_follows(
            state,
            result,
            backup,
            SwapState::Finished,
            SwapAction::Fail { failure, keep_backup },
        ),
    }
}

/// What follows after `event` in `stage`.
pub open spec fn install_follows(
    places: InstallPlaces,
    stage: InstallStage,
    event: InstallEvent,
    next: InstallNext,
) -> bool {
    match event {
        InstallEvent::Succeeded => match stage {
            InstallStage::MakeExtractDir => if has_suffix(
                package_name(places.package@),
                ".tar.gz"@,
            ) {
                next == InstallNext::Go(InstallStage::OpenPackage)
            } else {
                fails_with(
                    next,
                    "unsupported overlaybd package format for "@ + lossy_text(places.package@)
                        + " (expected .tar.gz)"@,
                )
            },
            InstallStage::Swap(state) => swap_goes_on(state, Ok(()), places.backup@, next),
            _ => next == InstallNext::Go(install_following(stage)),
        },
        InstallEvent::Failed(cause) => match stage {
            InstallStage::Swap(state) => swap_goes_on(state, Err(cause), places.backup@, next),
            InstallStage::RemovePackage | InstallStage::RemoveDownloads => next
                == InstallNext::Go(install_following(stage)),
            _ => fails_with(next, install_failure_text(places, stage, cause@)),
        },
        InstallEvent::Found(found) => match stage {
            InstallStage::FindInstalled => next == InstallNext::Go(
                InstallStage::Swap(
                    if found {
                        SwapState::BackingUp
                    } else {
                        SwapState::Installing { had_bin: false }
                    },
                ),
            ),
            _ => if found {
                next == InstallNext::Go(install_following(stage))
            } else {
                fails_with(next, not_found_text(places, stage))
            },
        },
        InstallEvent::Lib(lib) => match lib {
            LegacyLib::NotFound => next == InstallNext::Go(InstallStage::FindConfig),
            LegacyLib::Directory => next == InstallNext::Go(
                InstallStage::RemoveLib(LegacyLibAction::RemoveTree),
            ),
            LegacyLib::OtherKind => next == InstallNext::Go(
                InstallStage::RemoveLib(LegacyLibAction::RemoveFile),
            ),
            LegacyLib::Failed(cause) => fails_with(
                next,
                in_context(
                    "inspect legacy overlaybd lib "@ + lossy_text(
                        join_text(places.overlaybd_dir@, "lib"@),
                    ),
                    cause@,
                ),
            ),
        },
    }
}

/// The first step of what `plan` asks for: none where the release is installed.
pub fn begin_install(plan: &ReleasePlan) -> (r: InstallStage)
    ensures
        *plan is Current ==> r == InstallStage::Done,
        *plan is Install ==> r == InstallStage::MakeDownloads,
{
    match plan {
        ReleasePlan::Current => InstallStage::Done,
        ReleasePlan::Install { .. } => InstallStage::MakeDownloads,
    }
}

fn go_on(stage: InstallStage) -> (r: InstallStage)
    ensures
        r == install_following(stage),
{
    match stage {
        InstallStage::MakeDownloads => InstallStage::Download,
        InstallStage::Download => InstallStage::MakeExtractDir,
        InstallStage::MakeExtractDir => InstallStage::OpenPackage,
        InstallStage::OpenPackage => InstallStage::Unpack,
        InstallStage::Unpack => InstallStage::FindBin,
        InstallStage::FindBin => InstallStage::MakeDir,
        InstallStage::MakeDir => InstallStage::MakeStaging,
        InstallStage::MakeStaging => InstallStage::CopyBin,
        InstallStage::CopyBin => InstallStage::FindTool(OverlaybdTool::Create),
        InstallStage::FindTool(tool) => InstallStage::ModeTool(tool),
        InstallStage::ModeTool(OverlaybdTool::Create) => InstallStage::FindTool(
            OverlaybdTool::Apply,
        ),
        InstallStage::ModeTool(OverlaybdTool::Apply) => InstallStage::FindTool(
            OverlaybdTool::Commit,
        ),
        InstallStage::ModeTool(OverlaybdTool::Commit) => InstallStage::FindTool(
            OverlaybdTool::Resize,
        ),
        InstallStage::ModeTool(OverlaybdTool::Resize) => InstallStage::MakeBackup,
        InstallStage::MakeBackup => InstallStage::FindInstalled,
        InstallStage::FindInstalled => InstallStage::FindLib,
        InstallStage::Swap(_) => InstallStage::FindLib,
        InstallStage::FindLib => InstallStage::FindConfig,
        InstallStage::RemoveLib(_) => InstallStage::FindConfig,
        InstallStage::FindConfig => InstallStage::MakeConfigDir,
        InstallStage::MakeConfigDir => InstallStage::CopyConfig,
        InstallStage::CopyConfig => InstallStage::EncodeRecord,
        InstallStage::EncodeRecord => InstallStage::WriteRecord,
        InstallStage::WriteRecord => InstallStage::RemovePackage,
        InstallStage::RemovePackage => InstallStage::RemoveDownloads,
        InstallStage::RemoveDownloads => InstallStage::Done,
        InstallStage::Done => InstallStage::Done,
    }
}

fn quoted_path(head: &str, path: &FsPath) -> (r: String)
    ensures
        r@ == head@ + lossy_text(path@) + "'"@,
{
    joined3(head, path.to_text_lossy().as_str(), "'")
}

fn install_failed(places: &InstallPlaces, stage: &InstallStage, cause: Failure) -> (r: Failure)
    ensures
        r@ == install_failure_text(*places, *stage, cause@),
{
    let context: String = match stage {
        InstallStage::MakeDownloads => quoted_path(
            "create overlaybd downloads dir '",
            &places.overlaybd_dir.join_text("downloads"),
        ),
        InstallStage::MakeExtractDir => "create temp dir for overlaybd release".to_owned(),
        InstallStage::OpenPackage => joined(
            "open overlaybd package ",
            places.package.to_text_lossy().as_str(),
        ),
        InstallStage::Unpack => joined(
            "extract overlaybd package ",
            places.package.to_text_lossy().as_str(),
        ),
        InstallStage::MakeDir => quoted_path("create overlaybd dir '", &places.overlaybd_dir),
        InstallStage::MakeStaging => "create overlaybd release staging dir".to_owned(),
        InstallStage::MakeBackup => "create overlaybd release backup dir".to_owned(),
        InstallStage::RemoveLib(_) => joined(
            "remove legacy overlaybd lib ",
            places.lib().to_text_lossy().as_str(),
        ),
        InstallStage::MakeConfigDir => quoted_path(
            "create overlaybd config dir '",
            &places.config_dir(),
        ),
        InstallStage::CopyConfig => {
            let head: String = joined3(
                "stage overlaybd default config '",
                default_config_path(&places.extracted).to_text_lossy().as_str(),
                "' -> '",
            );
            quoted_path(head.as_str(), &default_config_path(&places.overlaybd_dir))
        },
        InstallStage::WriteRecord => quoted_path(
            "write overlaybd release metadata '",
            &metadata_path(&places.overlaybd_dir),
        ),
        _ => {
            return cause;
        },
    };
    cause.context(context.as_str())
}

fn after_swap(state: SwapState, result: Result<(), Failure>, backup: &FsPath) -> (r: InstallNext)
    requires
        !(state is Finished),
    ensures
        swap_goes_on(state, result, backup@, r),
{
    let (following, action): (SwapState, SwapAction) = swap_step(state, result, backup);
    match action {
        SwapAction::Finish => InstallNext::Go(InstallStage::FindLib),
        SwapAction::Fail { failure, keep_backup } => InstallNext::Fail { failure, keep_backup },
        _ => InstallNext::Go(InstallStage::Swap(following)),
    }
}

fn checked(result: Result<(), Failure>, stage: InstallStage) -> (r: InstallNext)
    ensures
        match result {
            Ok(()) => r == InstallNext::Go(install_following(stage)),
            Err(failure) => fails_with(r, failure@),
        },
{
    match result {
        Ok(()) => InstallNext::Go(go_on(stage)),
        Err(failure) => InstallNext::Fail { failure, keep_backup: false },
    }
}

impl InstallStage {
    /// What follows after `event` in this step.
    pub fn after(self, event: InstallEvent, places: &InstallPlaces) -> (r: InstallNext)
        requires
            install_expects(self, event),
        ensures
            install_follows(*places, self, event, r),
    {
        match event {
            InstallEvent::Succeeded => match self {
                InstallStage::MakeExtractDir => checked(check_package_format(&places.package), self),
                InstallStage::Swap(state) => after_swap(state, Ok(()), &places.backup),
                stage => InstallNext::Go(go_on(stage)),
            },
            InstallEvent::Failed(cause) => match self {
                InstallStage::Swap(state) => after_swap(state, Err(cause), &places.backup),
                InstallStage::RemovePackage => InstallNext::Go(InstallStage::RemoveDownloads),
                InstallStage::RemoveDownloads => InstallNext::Go(InstallStage::Done),
                stage => InstallNext::Fail {
                    failure: install_failed(places, &stage, cause),
                    keep_backup: false,
                },
            },
            InstallEvent::Found(found) => match self {
                InstallStage::FindInstalled => {
                    let (state, _): (SwapState, SwapAction) = begin_swap(found);
                    InstallNext::Go(InstallStage::Swap(state))
                },
                InstallStage::FindBin => checked(
                    check_payload_dir(&places.source_bin(), found),
                    InstallStage::FindBin,
                ),
                InstallStage::FindTool(tool) => checked(
                    check_payload_tool(&places.source_bin(), tool, found),
                    InstallStage::FindTool(tool),
                ),
                stage => checked(
                    check_payload_config(&default_config_path(&places.extracted), found),
                    stage,
                ),
            },
            InstallEvent::Lib(lib) => match legacy_lib_action(&places.lib(), lib) {
                Err(failure) => InstallNext::Fail { failure, keep_backup: false },
                Ok(LegacyLibAction::Nothing) => InstallNext::Go(InstallStage::FindConfig),
                Ok(action) => InstallNext::Go(InstallStage::RemoveLib(action)),
            },
        }
    }
}

} // verus!
