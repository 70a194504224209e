//! What holds of every installation of a release, whatever fails in it.
use crate::config::types::OverlaybdDependencyConfig;
use crate::setup::install::{
    InstallEvent, InstallNext, InstallPlaces, InstallStage, TOOL_MODE, install_expects,
    install_following, install_follows,
};
use crate::setup::release::{
    ConfiguredOverlaybdRelease, LegacyLib, LegacyLibAction, OverlaybdInstalledRelease,
    OverlaybdTool, RecordView, SwapState, ToolsOnDisk, is_configured, is_current, is_release,
    package_name, tool_name,
};
use crate::text::{after_last_slash, has_suffix};
use vstd::prelude::*;
use vstd::utf8::*;

verus! {

/// An entry of the directory of the programs.
#[verifier::ext_equal]
pub struct Program {
    pub is_file: bool,
    pub content: Seq<u8>,
    pub mode: u32,
}

/// A directory of programs, by name.
pub type Programs = Map<Seq<u8>, Program>;

/// What is at the path of the shared libraries of older releases.
pub enum LibOnDisk {
    Absent,
    Directory,
    OtherKind,
}

/// What is on disk during an installation.
#[verifier::ext_equal]
pub struct ReleaseDisk {
    /// The programs in the package, where it has a directory of them.
    pub payload: Option<Programs>,
    /// Whether the default configuration is in the package.
    pub payload_config: bool,
    /// Whether the downloaded package is there.
    pub package: bool,
    /// The staged programs.
    pub staged: Option<Programs>,
    /// The programs before, while they are kept.
    pub backup: Option<Programs>,
    /// The installed programs.
    pub bin: Option<Programs>,
    pub lib: LibOnDisk,
    /// Whether the default configuration is installed.
    pub config: bool,
    /// The record of the installed release.
    pub record: Option<RecordView>,
}

/// The name of a tool in a directory of programs.
pub open spec fn tool_key(tool: OverlaybdTool) -> Seq<u8> {
    encode_utf8(tool_name(tool))
}

/// Whether `tool` is a file among `programs`.
pub open spec fn has_tool(programs: Programs, tool: OverlaybdTool) -> bool {
    programs.contains_key(tool_key(tool)) && programs[tool_key(tool)].is_file
}

/// Whether every tool is a file among `programs`.
pub open spec fn complete(programs: Programs) -> bool {
    forall|tool: OverlaybdTool| #[trigger] has_tool(programs, tool)
}

/// Which tools are in `bin`.
pub open spec fn tools_in(bin: Option<Programs>) -> ToolsOnDisk {
    ToolsOnDisk {
        create: bin is Some && has_tool(bin->0, OverlaybdTool::Create),
        apply: bin is Some && has_tool(bin->0, OverlaybdTool::Apply),
        commit: bin is Some && has_tool(bin->0, OverlaybdTool::Commit),
        resize: bin is Some && has_tool(bin->0, OverlaybdTool::Resize),
    }
}

/// `programs` after `tool` got its permissions.
pub open spec fn with_mode(programs: Programs, tool: OverlaybdTool) -> Programs {
    programs.insert(
        tool_key(tool),
        Program { mode: TOOL_MODE, ..programs[tool_key(tool)] },
    )
}

/// `programs` after every tool before `tool` got its permissions.
pub open spec fn with_modes_before(programs: Programs, tool: OverlaybdTool) -> Programs {
    match tool {
        OverlaybdTool::Create => programs,
        OverlaybdTool::Apply => with_mode(programs, OverlaybdTool::Create),
        OverlaybdTool::Commit => with_mode(
            with_mode(programs, OverlaybdTool::Create),
            OverlaybdTool::Apply,
        ),
        OverlaybdTool::Resize => with_mode(
            with_mode(with_mode(programs, OverlaybdTool::Create), OverlaybdTool::Apply),
            OverlaybdTool::Commit,
        ),
    }
}

/// `programs` after every tool got its permissions.
pub open spec fn with_modes(programs: Programs) -> Programs {
    with_mode(with_modes_before(programs, OverlaybdTool::Resize), OverlaybdTool::Resize)
}

/// Whether `event` tells what is on disk, where the step looks at something.
pub open spec fn truthful(disk: ReleaseDisk, stage: InstallStage, event: InstallEvent) -> bool {
    match event {
        InstallEvent::Found(found) => match stage {
            InstallStage::FindBin => found == (disk.payload is Some),
            InstallStage::FindTool(tool) => found == (disk.staged is Some && has_tool(
                disk.staged->0,
                tool,
            )),
            InstallStage::FindInstalled => found == (disk.bin is Some),
            _ => found == disk.payload_config,
        },
        InstallEvent::Lib(lib) => match lib {
            LegacyLib::NotFound => disk.lib is Absent,
            LegacyLib::Directory => disk.lib is Directory,
            LegacyLib::OtherKind => disk.lib is OtherKind,
            LegacyLib::Failed(_) => true,
        },
        _ => true,
    }
}

/// What is on disk after `event` in `stage`. A rename that fails moves nothing;
/// of anything else that fails, what it was writing or removing is left open.
/// `record` is the record that is written.
pub open spec fn install_effect(
    before: ReleaseDisk,
    stage: InstallStage,
    event: InstallEvent,
    record: RecordView,
    after: ReleaseDisk,
) -> bool {
    let done = event is Succeeded;
    match stage {
        InstallStage::Download => {
            &&& after == (ReleaseDisk { package: after.package, ..before })
            &&& done ==> after.package
        },
        InstallStage::CopyBin => {
            &&& after == (ReleaseDisk { staged: after.staged, ..before })
            &&& done ==> after.staged == before.payload
        },
        InstallStage::ModeTool(tool) => {
            &&& after == (ReleaseDisk { staged: after.staged, ..before })
            &&& done && before.staged is Some ==> after.staged == Some(
                with_mode(before.staged->0, tool),
            )
        },
        InstallStage::Swap(state) => if !done {
            after == before
        } else {
            match state {
                SwapState::BackingUp => after == (ReleaseDisk {
                    bin: None,
                    backup: before.bin,
                    ..before
                }),
                SwapState::Installing { .. } => after == (ReleaseDisk {
                    bin: before.staged,
                    staged: None,
                    ..before
                }),
                SwapState::Restoring { .. } => after == (ReleaseDisk {
                    bin: before.backup,
                    backup: None,
                    ..before
                }),
                SwapState::Finished => after == before,
            }
        },
        InstallStage::RemoveLib(_) => {
            &&& after == (ReleaseDisk { lib: after.lib, ..before })
            &&& done ==> after.lib is Absent
        },
        InstallStage::CopyConfig => {
            &&& after == (ReleaseDisk { config: after.config, ..before })
            &&& done ==> after.config
        },
        InstallStage::WriteRecord => {
            &&& after == (ReleaseDisk { record: after.record, ..before })
            &&& done ==> after.record == Some(record)
        },
        InstallStage::RemovePackage => {
            &&& after == (ReleaseDisk { package: after.package, ..before })
            &&& done ==> !after.package
        },
        _ => after == before,
    }
}

/// One step of an installation: where it worked, in which stage, what happened
/// and what was on disk before.
pub struct InstallStep {
    pub places: InstallPlaces,
    pub stage: InstallStage,
    pub event: InstallEvent,
    pub disk: ReleaseDisk,
}

/// The steps lead one after the other from `first` with `start` on disk to
/// `stage` with `disk` on disk.
pub open spec fn leads_to(
    steps: Seq<InstallStep>,
    first: InstallStage,
    start: ReleaseDisk,
    record: RecordView,
    stage: InstallStage,
    disk: ReleaseDisk,
) -> bool
    decreases steps.len(),
{
    if steps.len() == 0 {
        stage == first && disk == start
    } else {
        let last = steps.last();
        &&& leads_to(steps.drop_last(), first, start, record, last.stage, last.disk)
        &&& install_expects(last.stage, last.event)
        &&& truthful(last.disk, last.stage, last.event)
        &&& install_follows(last.places, last.stage, last.event, InstallNext::Go(stage))
        &&& install_effect(last.disk, last.stage, last.event, record, disk)
    }
}

/// Whether the programs were exchanged before `stage`.
pub open spec fn exchanged(stage: InstallStage) -> bool {
    match stage {
        InstallStage::FindLib
        | InstallStage::RemoveLib(_)
        | InstallStage::FindConfig
        | InstallStage::MakeConfigDir
        | InstallStage::CopyConfig
        | InstallStage::EncodeRecord
        | InstallStage::WriteRecord
        | InstallStage::RemovePackage
        | InstallStage::RemoveDownloads
        | InstallStage::Done => true,
        _ => false,
    }
}

/// Whether `tool` is checked before `other`.
pub open spec fn checked_before(tool: OverlaybdTool, other: OverlaybdTool) -> bool {
    match tool {
        OverlaybdTool::Create => other != OverlaybdTool::Create,
        OverlaybdTool::Apply => other == OverlaybdTool::Commit || other == OverlaybdTool::Resize,
        OverlaybdTool::Commit => other == OverlaybdTool::Resize,
        OverlaybdTool::Resize => false,
    }
}

/// What is known in `stage` of the payload and the staged programs.
spec fn payload_known(stage: InstallStage, disk: ReleaseDisk) -> bool {
    match stage {
        InstallStage::MakeDownloads
        | InstallStage::Download
        | InstallStage::MakeExtractDir
        | InstallStage::OpenPackage
        | InstallStage::Unpack
        | InstallStage::FindBin => true,
        InstallStage::MakeDir | InstallStage::MakeStaging | InstallStage::CopyBin => disk.payload
            is Some,
        InstallStage::FindTool(tool) => {
            &&& disk.payload is Some
            &&& disk.staged == Some(with_modes_before(disk.payload->0, tool))
            &&& forall|other: OverlaybdTool|
                checked_before(other, tool) ==> #[trigger] has_tool(disk.payload->0, other)
        },
        InstallStage::ModeTool(tool) => {
            &&& disk.payload is Some
            &&& disk.staged == Some(with_modes_before(disk.payload->0, tool))
            &&& has_tool(disk.payload->0, tool)
            &&& forall|other: OverlaybdTool|
                checked_before(other, tool) ==> #[trigger] has_tool(disk.payload->0, other)
        },
        InstallStage::MakeBackup | InstallStage::FindInstalled | InstallStage::Swap(_) => {
            &&& disk.payload is Some
            &&& complete(disk.payload->0)
            &&& disk.staged == Some(with_modes(disk.payload->0))
        },
        _ => {
            &&& disk.payload is Some
            &&& complete(disk.payload->0)
            &&& disk.bin == Some(with_modes(disk.payload->0))
        },
    }
}

/// What is known in `stage` of the installed release, where `start` was on disk
/// in the beginning.
spec fn release_known(
    stage: InstallStage,
    start: ReleaseDisk,
    record: RecordView,
    disk: ReleaseDisk,
) -> bool {
    &&& disk.payload == start.payload
    &&& disk.payload_config == start.payload_config
    &&& match stage {
        InstallStage::Swap(state) => match state {
            SwapState::BackingUp => disk.bin == start.bin && start.bin is Some,
            SwapState::Installing { had_bin } => {
                &&& disk.bin is None
                &&& had_bin == (start.bin is Some)
                &&& had_bin ==> disk.backup == start.bin
            },
            SwapState::Restoring { .. } => {
                &&& disk.bin is None
                &&& start.bin is Some
                &&& disk.backup == start.bin
            },
            SwapState::Finished => false,
        },
        _ => exchanged(stage) || disk.bin == start.bin,
    }
    &&& match stage {
        InstallStage::FindConfig
        | InstallStage::MakeConfigDir
        | InstallStage::CopyConfig
        | InstallStage::EncodeRecord
        | InstallStage::WriteRecord
        | InstallStage::RemovePackage
        | InstallStage::RemoveDownloads
        | InstallStage::Done => disk.lib is Absent,
        _ => disk.lib == start.lib,
    }
    &&& match stage {
        InstallStage::EncodeRecord
        | InstallStage::WriteRecord
        | InstallStage::RemovePackage
        | InstallStage::RemoveDownloads
        | InstallStage::Done => disk.config,
        _ => disk.config == start.config,
    }
    &&& match stage {
        InstallStage::RemovePackage | InstallStage::RemoveDownloads | InstallStage::Done =>
            disk.record == Some(record),
        _ => disk.record == start.record,
    }
}

/// Setting permissions changes neither which entries there are nor what they
/// hold.
proof fn lemma_with_mode(programs: Programs, tool: OverlaybdTool)
    requires
        has_tool(programs, tool),
    ensures
        with_mode(programs, tool).dom() == programs.dom(),
        with_mode(programs, tool)[tool_key(tool)].mode == TOOL_MODE,
        forall|name: Seq<u8>| #[trigger]
            programs.contains_key(name) ==> with_mode(programs, tool)[name].is_file
                == programs[name].is_file && with_mode(programs, tool)[name].content
                == programs[name].content,
        forall|other: OverlaybdTool| #[trigger]
            has_tool(with_mode(programs, tool), other) == has_tool(programs, other),
{
    assert(with_mode(programs, tool).dom() =~= programs.dom());
    assert forall|other: OverlaybdTool| #[trigger]
        has_tool(with_mode(programs, tool), other) == has_tool(programs, other) by {
        assert(with_mode(programs, tool).dom().contains(tool_key(other)) == programs.dom().contains(
            tool_key(other),
        ));
    }
}

/// The tools before `tool` have their permissions, and nothing else changed.
proof fn lemma_with_modes_before(programs: Programs, tool: OverlaybdTool)
    requires
        forall|other: OverlaybdTool|
            checked_before(other, tool) ==> #[trigger] has_tool(programs, other),
    ensures
        forall|other: OverlaybdTool| #[trigger]
            has_tool(with_modes_before(programs, tool), other) == has_tool(programs, other),
{
    let create = with_mode(programs, OverlaybdTool::Create);
    let apply = with_mode(create, OverlaybdTool::Apply);
    if tool != OverlaybdTool::Create {
        assert(has_tool(programs, OverlaybdTool::Create));
        lemma_with_mode(programs, OverlaybdTool::Create);
        if tool != OverlaybdTool::Apply {
            assert(has_tool(programs, OverlaybdTool::Apply));
            assert(has_tool(create, OverlaybdTool::Apply));
            lemma_with_mode(create, OverlaybdTool::Apply);
            if tool != OverlaybdTool::Commit {
                assert(has_tool(programs, OverlaybdTool::Commit));
                assert(has_tool(create, OverlaybdTool::Commit));
                assert(has_tool(apply, OverlaybdTool::Commit));
                lemma_with_mode(apply, OverlaybdTool::Commit);
                let commit = with_mode(apply, OverlaybdTool::Commit);
                assert forall|other: OverlaybdTool| #[trigger]
                    has_tool(commit, other) == has_tool(programs, other) by {
                    assert(has_tool(apply, other) == has_tool(create, other));
                    assert(has_tool(create, other) == has_tool(programs, other));
                }
            } else {
                assert forall|other: OverlaybdTool| #[trigger]
                    has_tool(apply, other) == has_tool(programs, other) by {
                    assert(has_tool(create, other) == has_tool(programs, other));
                }
            }
        }
    }
}

/// `installed` has exactly the entries of `payload`, each a file exactly where it
/// was one and with the same content; the tools can be run, and every other entry
/// has the permissions that it had.
pub open spec fn installed_as(payload: Programs, installed: Programs) -> bool {
    &&& installed.dom() == payload.dom()
    &&& forall|name: Seq<u8>| #[trigger]
        payload.contains_key(name) ==> installed[name].is_file == payload[name].is_file
            && installed[name].content == payload[name].content
    &&& forall|tool: OverlaybdTool| installed[#[trigger] tool_key(tool)].mode == TOOL_MODE
    &&& forall|name: Seq<u8>|
        (forall|tool: OverlaybdTool| name != #[trigger] tool_key(tool)) ==> #[trigger]
        installed[name] == payload[name]
}

proof fn lemma_with_modes(programs: Programs)
    requires
        complete(programs),
    ensures
        installed_as(programs, with_modes(programs)),
        forall|tool: OverlaybdTool| #[trigger] has_tool(with_modes(programs), tool),
{
    let a = with_mode(programs, OverlaybdTool::Create);
    let b = with_mode(a, OverlaybdTool::Apply);
    let c = with_mode(b, OverlaybdTool::Commit);
    let d = with_mode(c, OverlaybdTool::Resize);
    assert(has_tool(programs, OverlaybdTool::Create));
    lemma_with_mode(programs, OverlaybdTool::Create);
    assert(has_tool(programs, OverlaybdTool::Apply));
    assert(has_tool(a, OverlaybdTool::Apply));
    lemma_with_mode(a, OverlaybdTool::Apply);
    assert(has_tool(programs, OverlaybdTool::Commit));
    assert(has_tool(a, OverlaybdTool::Commit));
    assert(has_tool(b, OverlaybdTool::Commit));
    lemma_with_mode(b, OverlaybdTool::Commit);
    assert(has_tool(programs, OverlaybdTool::Resize));
    assert(has_tool(a, OverlaybdTool::Resize));
    assert(has_tool(b, OverlaybdTool::Resize));
    assert(has_tool(c, OverlaybdTool::Resize));
    lemma_with_mode(c, OverlaybdTool::Resize);
    assert(d == with_modes(programs));
    assert forall|name: Seq<u8>| #[trigger] programs.contains_key(name) implies d[name].is_file
        == programs[name].is_file && d[name].content == programs[name].content by {
        assert(a.dom().contains(name) && b.dom().contains(name) && c.dom().contains(name));
        assert(a.contains_key(name) && b.contains_key(name) && c.contains_key(name));
    }
    assert forall|tool: OverlaybdTool| d[#[trigger] tool_key(tool)].mode == TOOL_MODE by {
        match tool {
            OverlaybdTool::Create => {
                assert(a[tool_key(tool)].mode == TOOL_MODE);
            },
            OverlaybdTool::Apply => {
                assert(b[tool_key(tool)].mode == TOOL_MODE);
            },
            OverlaybdTool::Commit => {
                assert(c[tool_key(tool)].mode == TOOL_MODE);
            },
            OverlaybdTool::Resize => {},
        }
    }
    assert forall|name: Seq<u8>|
        (forall|tool: OverlaybdTool| name != #[trigger] tool_key(tool)) implies #[trigger] d[name]
        == programs[name] by {
        assert(name != tool_key(OverlaybdTool::Create));
        assert(name != tool_key(OverlaybdTool::Apply));
        assert(name != tool_key(OverlaybdTool::Commit));
        assert(name != tool_key(OverlaybdTool::Resize));
    }
    assert forall|tool: OverlaybdTool| #[trigger] has_tool(d, tool) by {
        assert(has_tool(programs, tool));
        assert(has_tool(a, tool));
        assert(has_tool(b, tool));
        assert(has_tool(c, tool));
    }
}

/// What is known in `stage` stays known through a step.
proof fn lemma_step(
    places: InstallPlaces,
    stage: InstallStage,
    event: InstallEvent,
    next: InstallStage,
    start: ReleaseDisk,
    record: RecordView,
    before: ReleaseDisk,
    after: ReleaseDisk,
)
    requires
        payload_known(stage, before),
        release_known(stage, start, record, before),
        install_expects(stage, event),
        truthful(before, stage, event),
        install_follows(places, stage, event, InstallNext::Go(next)),
        install_effect(before, stage, event, record, after),
    ensures
        payload_known(next, after),
        release_known(next, start, record, after),
{
    match stage {
        InstallStage::FindTool(tool) => {
            lemma_with_modes_before(before.payload->0, tool);
        },
        InstallStage::ModeTool(tool) => {
            let payload = before.payload->0;
            assert(has_tool(payload, tool));
            assert forall|other: OverlaybdTool|
                checked_before(other, tool) || other == tool implies #[trigger] has_tool(
                payload,
                other,
            ) by {}
            if tool == OverlaybdTool::Resize {
                assert(complete(payload));
            }
        },
        _ => {},
    }
}

/// What is known in the stage that the steps of an installation lead to.
proof fn lemma_leads_to(
    steps: Seq<InstallStep>,
    start: ReleaseDisk,
    record: RecordView,
    stage: InstallStage,
    disk: ReleaseDisk,
)
    requires
        leads_to(steps, InstallStage::MakeDownloads, start, record, stage, disk),
    ensures
        payload_known(stage, disk),
        release_known(stage, start, record, disk),
    decreases steps.len(),
{
    if steps.len() > 0 {
        let last = steps.last();
        lemma_leads_to(steps.drop_last(), start, record, last.stage, last.disk);
        lemma_step(
            last.places,
            last.stage,
            last.event,
            stage,
            start,
            record,
            last.disk,
            disk,
        );
    }
}

/// Whether `event` says that something outside went wrong.
pub open spec fn went_wrong(event: InstallEvent) -> bool {
    event is Failed || (event matches InstallEvent::Lib(lib) && lib is Failed)
}

/// Whether nothing outside went wrong in `steps`.
pub open spec fn all_went_well(steps: Seq<InstallStep>) -> bool {
    forall|i: int| 0 <= i < steps.len() ==> !went_wrong((#[trigger] steps[i]).event)
}

/// Nothing is moved back where nothing went wrong.
proof fn lemma_no_restore(
    steps: Seq<InstallStep>,
    start: ReleaseDisk,
    record: RecordView,
    stage: InstallStage,
    disk: ReleaseDisk,
)
    requires
        leads_to(steps, InstallStage::MakeDownloads, start, record, stage, disk),
        all_went_well(steps),
    ensures
        !(stage matches InstallStage::Swap(state) && state is Restoring),
{
    if steps.len() > 0 {
        assert(!went_wrong(steps[steps.len() - 1].event));
    }
}

/// Nothing of the installed release is touched before every check of the
/// package passed: an installation that fails in a step before the exchange
/// leaves the programs, the old shared libraries, the default configuration and
/// the record as they were. One that fails in the exchange leaves all but the
/// programs, and these are in place again or in the backup, which is kept.
/// Where nothing outside went wrong, an installation fails only because of what
/// is in the package.
pub proof fn law_failed_install_keeps_the_release(
    steps: Seq<InstallStep>,
    start: ReleaseDisk,
    record: RecordView,
    last: InstallStep,
    failure: InstallNext,
    after: ReleaseDisk,
)
    requires
        leads_to(steps, InstallStage::MakeDownloads, start, record, last.stage, last.disk),
        install_expects(last.stage, last.event),
        truthful(last.disk, last.stage, last.event),
        install_follows(last.places, last.stage, last.event, failure),
        failure is Fail,
        install_effect(last.disk, last.stage, last.event, record, after),
    ensures
        !exchanged(last.stage) ==> {
            &&& after.lib == start.lib
            &&& after.config == start.config
            &&& after.record == start.record
            &&& after.bin == start.bin || failure->keep_backup && after.backup == start.bin
        },
        !exchanged(last.stage) && !(last.stage is Swap) ==> after.bin == start.bin,
        all_went_well(steps) && !went_wrong(last.event) ==> match last.stage {
            InstallStage::MakeExtractDir => true,
            InstallStage::FindBin => start.payload is None,
            InstallStage::FindTool(tool) => start.payload is Some && !has_tool(
                start.payload->0,
                tool,
            ),
            InstallStage::FindConfig => !start.payload_config,
            _ => false,
        },
{
    lemma_leads_to(steps, start, record, last.stage, last.disk);
    if all_went_well(steps) {
        lemma_no_restore(steps, start, record, last.stage, last.disk);
    }
    if let InstallStage::FindTool(tool) = last.stage {
        lemma_with_modes_before(last.disk.payload->0, tool);
    }
}

/// The exchange begins only once every check of the programs passed, and the old
/// shared libraries are looked at and removed only once the exchange is finished.
pub proof fn law_exchange_follows_the_checks(
    steps: Seq<InstallStep>,
    start: ReleaseDisk,
    record: RecordView,
    stage: InstallStage,
    disk: ReleaseDisk,
)
    requires
        leads_to(steps, InstallStage::MakeDownloads, start, record, stage, disk),
    ensures
        stage is Swap || exchanged(stage) ==> start.payload is Some && complete(start.payload->0),
        stage is FindLib || stage is RemoveLib ==> disk.bin == Some(with_modes(start.payload->0)),
        !exchanged(stage) ==> disk.lib == start.lib,
{
    lemma_leads_to(steps, start, record, stage, disk);
}

/// Once the programs are exchanged, the package had every tool as a file, and
/// exactly its programs are installed, the tools with their permissions; and
/// once the default configuration is looked for, the old shared libraries are
/// gone.
pub proof fn law_exchanged_programs_are_complete(
    steps: Seq<InstallStep>,
    start: ReleaseDisk,
    record: RecordView,
    stage: InstallStage,
    disk: ReleaseDisk,
)
    requires
        leads_to(steps, InstallStage::MakeDownloads, start, record, stage, disk),
        exchanged(stage),
    ensures
        start.payload is Some,
        complete(start.payload->0),
        disk.bin is Some,
        installed_as(start.payload->0, disk.bin->0),
        tools_in(disk.bin).first_missing() is None,
        disk.lib is Absent || stage is FindLib || stage is RemoveLib,
{
    lemma_leads_to(steps, start, record, stage, disk);
    lemma_with_modes(start.payload->0);
    assert(has_tool(disk.bin->0, OverlaybdTool::Create));
    assert(has_tool(disk.bin->0, OverlaybdTool::Apply));
    assert(has_tool(disk.bin->0, OverlaybdTool::Commit));
    assert(has_tool(disk.bin->0, OverlaybdTool::Resize));
}

/// Where nothing outside goes wrong, the tools of an unpacked package are
/// installed exactly when its programs are there and every tool is a file among
/// them. Then exactly its programs are installed, the tools with their
/// permissions, and the old shared libraries are gone; else the programs and the
/// shared libraries of before are unchanged.
pub proof fn law_tools_are_installed_if_complete(
    steps: Seq<InstallStep>,
    start: ReleaseDisk,
    record: RecordView,
    last: InstallStep,
    next: InstallNext,
    after: ReleaseDisk,
)
    requires
        leads_to(steps, InstallStage::MakeDownloads, start, record, last.stage, last.disk),
        install_expects(last.stage, last.event),
        truthful(last.disk, last.stage, last.event),
        install_follows(last.places, last.stage, last.event, next),
        install_effect(last.disk, last.stage, last.event, record, after),
        all_went_well(steps),
        !went_wrong(last.event),
        next == InstallNext::Go(InstallStage::FindConfig) || next is Fail && !(last.stage
            is MakeExtractDir) && !(last.stage is FindConfig),
    ensures
        next is Go <==> start.payload is Some && complete(start.payload->0),
        next is Go ==> after.bin is Some && installed_as(start.payload->0, after.bin->0)
            && after.lib is Absent,
        next is Fail ==> after.bin == start.bin && after.lib == start.lib,
{
    lemma_leads_to(steps, start, record, last.stage, last.disk);
    if next is Go {
        let all = steps.push(last);
        assert(all.drop_last() =~= steps);
        assert(all.last() == last);
        assert(leads_to(
            all,
            InstallStage::MakeDownloads,
            start,
            record,
            InstallStage::FindConfig,
            after,
        ));
        law_exchanged_programs_are_complete(
            all,
            start,
            record,
            InstallStage::FindConfig,
            after,
        );
    } else {
        law_failed_install_keeps_the_release(steps, start, record, last, next, after);
    }
}

/// How many steps an installation can still take.
pub open spec fn install_rank(stage: InstallStage) -> nat {
    match stage {
        InstallStage::MakeDownloads => 40,
        InstallStage::Download => 39,
        InstallStage::MakeExtractDir => 38,
        InstallStage::OpenPackage => 37,
        InstallStage::Unpack => 36,
        InstallStage::FindBin => 35,
        InstallStage::MakeDir => 34,
        InstallStage::MakeStaging => 33,
        InstallStage::CopyBin => 32,
        InstallStage::FindTool(OverlaybdTool::Create) => 31,
        InstallStage::ModeTool(OverlaybdTool::Create) => 30,
        InstallStage::FindTool(OverlaybdTool::Apply) => 29,
        InstallStage::ModeTool(OverlaybdTool::Apply) => 28,
        InstallStage::FindTool(OverlaybdTool::Commit) => 27,
        InstallStage::ModeTool(OverlaybdTool::Commit) => 26,
        InstallStage::FindTool(OverlaybdTool::Resize) => 25,
        InstallStage::ModeTool(OverlaybdTool::Resize) => 24,
        InstallStage::MakeBackup => 23,
        InstallStage::FindInstalled => 22,
        InstallStage::Swap(SwapState::BackingUp) => 21,
        InstallStage::Swap(SwapState::Installing { .. }) => 20,
        InstallStage::Swap(SwapState::Restoring { .. }) => 19,
        InstallStage::Swap(SwapState::Finished) => 18,
        InstallStage::FindLib => 10,
        InstallStage::RemoveLib(_) => 9,
        InstallStage::FindConfig => 8,
        InstallStage::MakeConfigDir => 7,
        InstallStage::CopyConfig => 6,
        InstallStage::EncodeRecord => 5,
        InstallStage::WriteRecord => 4,
        InstallStage::RemovePackage => 3,
        InstallStage::RemoveDownloads => 2,
        InstallStage::Done => 0,
    }
}

/// An installation ends: every event brings it nearer to its end. It succeeds
/// only after it tried to remove the download, and it removes the download only
/// after it wrote the record.
pub proof fn law_install_ends(
    places: InstallPlaces,
    stage: InstallStage,
    event: InstallEvent,
    next: InstallStage,
)
    requires
        install_expects(stage, event),
        install_follows(places, stage, event, InstallNext::Go(next)),
    ensures
        install_rank(next) < install_rank(stage),
        next is Done <==> stage is RemoveDownloads,
        next is RemoveDownloads <==> stage is RemovePackage,
        next is RemovePackage <==> stage is WriteRecord && event is Succeeded,
{
}

/// What the record of an installed release says.
pub open spec fn recorded(installed: Option<OverlaybdInstalledRelease>) -> Option<RecordView> {
    match installed {
        Some(installed) => Some(installed@),
        None => None,
    }
}

/// The first step of an installation: none where the release is installed.
pub open spec fn first_stage(current: bool) -> InstallStage {
    if current {
        InstallStage::Done
    } else {
        InstallStage::MakeDownloads
    }
}

proof fn lemma_nothing_after_done(
    steps: Seq<InstallStep>,
    start: ReleaseDisk,
    record: RecordView,
    stage: InstallStage,
    disk: ReleaseDisk,
)
    requires
        leads_to(steps, InstallStage::Done, start, record, stage, disk),
    ensures
        steps.len() == 0,
        stage is Done,
        disk == start,
    decreases steps.len(),
{
    if steps.len() > 0 {
        let last = steps.last();
        lemma_nothing_after_done(steps.drop_last(), start, record, last.stage, last.disk);
    }
}

/// Setting up the same release again does nothing. After a set-up that ended
/// well, whether it installed the release or found it installed, and with
/// nothing changed on disk since, the release that the same configuration asks
/// for is installed: the second set-up has no step, so nothing is downloaded,
/// written or removed, and the record names the configured tag and the last
/// part of the address of the package.
pub proof fn law_setup_is_repeatable(
    overlaybd: OverlaybdDependencyConfig,
    arch: Seq<char>,
    release: ConfiguredOverlaybdRelease,
    again: ConfiguredOverlaybdRelease,
    found: Option<OverlaybdInstalledRelease>,
    record: OverlaybdInstalledRelease,
    start: ReleaseDisk,
    steps: Seq<InstallStep>,
    disk: ReleaseDisk,
    found_again: Option<OverlaybdInstalledRelease>,
)
    requires
        is_configured(overlaybd, arch, release),
        is_configured(overlaybd, arch, again),
        is_release(Some(record), release),
        recorded(found) == start.record,
        leads_to(
            steps,
            first_stage(is_current(found, release, tools_in(start.bin), start.config)),
            start,
            record@,
            InstallStage::Done,
            disk,
        ),
        recorded(found_again) == disk.record,
    ensures
        is_current(found_again, again, tools_in(disk.bin), disk.config),
        disk.record == Some(
            RecordView {
                tag_name: again.tag_name@,
                asset_name: after_last_slash(again.package_url@),
                digest: None,
            },
        ),
        forall|more: Seq<InstallStep>, other: RecordView, stage: InstallStage, later: ReleaseDisk|
            #[trigger]
            leads_to(
                more,
                first_stage(is_current(found_again, again, tools_in(disk.bin), disk.config)),
                disk,
                other,
                stage,
                later,
            ) ==> more.len() == 0 && stage is Done && later == disk,
{
    if is_current(found, release, tools_in(start.bin), start.config) {
        lemma_nothing_after_done(steps, start, record@, InstallStage::Done, disk);
    } else {
        lemma_leads_to(steps, start, record@, InstallStage::Done, disk);
        law_exchanged_programs_are_complete(
            steps,
            start,
            record@,
            InstallStage::Done,
            disk,
        );
    }
    assert forall|
        more: Seq<InstallStep>,
        other: RecordView,
        stage: InstallStage,
        later: ReleaseDisk,
    | #[trigger]
        leads_to(
            more,
            first_stage(is_current(found_again, again, tools_in(disk.bin), disk.config)),
            disk,
            other,
            stage,
            later,
        ) implies more.len() == 0 && stage is Done && later == disk by {
        lemma_nothing_after_done(more, disk, other, stage, later);
    }
}

/// The steps of an installation, where nothing fails: the package is downloaded
/// and unpacked, its programs are staged, each tool is checked and gets its
/// permissions, the programs are exchanged, the old shared libraries go, the
/// default configuration comes, the record is written, and the download goes.
pub proof fn law_install_stages()
    ensures
        install_following(InstallStage::MakeDownloads) is Download,
        install_following(InstallStage::Download) is MakeExtractDir,
        install_following(InstallStage::MakeExtractDir) is OpenPackage,
        install_following(InstallStage::OpenPackage) is Unpack,
        install_following(InstallStage::Unpack) is FindBin,
        install_following(InstallStage::FindBin) is MakeDir,
        install_following(InstallStage::MakeDir) is MakeStaging,
        install_following(InstallStage::MakeStaging) is CopyBin,
        install_following(InstallStage::CopyBin) == InstallStage::FindTool(OverlaybdTool::Create),
        install_following(InstallStage::ModeTool(OverlaybdTool::Create)) == InstallStage::FindTool(
            OverlaybdTool::Apply,
        ),
        install_following(InstallStage::ModeTool(OverlaybdTool::Apply)) == InstallStage::FindTool(
            OverlaybdTool::Commit,
        ),
        install_following(InstallStage::ModeTool(OverlaybdTool::Commit)) == InstallStage::FindTool(
            OverlaybdTool::Resize,
        ),
        install_following(InstallStage::ModeTool(OverlaybdTool::Resize)) is MakeBackup,
        forall|tool: OverlaybdTool|
            #[trigger] install_following(InstallStage::FindTool(tool)) == InstallStage::ModeTool(
                tool,
            ),
        install_following(InstallStage::MakeBackup) is FindInstalled,
        install_following(InstallStage::FindConfig) is MakeConfigDir,
        install_following(InstallStage::MakeConfigDir) is CopyConfig,
        install_following(InstallStage::CopyConfig) is EncodeRecord,
        install_following(InstallStage::EncodeRecord) is WriteRecord,
        install_following(InstallStage::WriteRecord) is RemovePackage,
        install_following(InstallStage::RemovePackage) is RemoveDownloads,
        install_following(InstallStage::RemoveDownloads) is Done,
{
}

/// How an installation goes on after each event: a failure ends it, but for the
/// removal of the download; something that is missing ends it; the exchange
/// begins with a backup exactly where there are programs; and the old shared
/// libraries are removed as what they are.
pub proof fn law_install_steps(
    places: InstallPlaces,
    stage: InstallStage,
    event: InstallEvent,
    next: InstallNext,
)
    requires
        install_expects(stage, event),
        install_follows(places, stage, event, next),
    ensures
        event is Failed && !(stage is Swap) ==> (next is Fail <==> !(stage is RemovePackage)
            && !(stage is RemoveDownloads)),
        event matches InstallEvent::Found(found) ==> (stage is FindInstalled ==> next
            == InstallNext::Go(
            InstallStage::Swap(
                if found {
                    SwapState::BackingUp
                } else {
                    SwapState::Installing { had_bin: false }
                },
            ),
        )) && (!(stage is FindInstalled) ==> (next is Fail <==> !found)),
        event matches InstallEvent::Lib(lib) ==> match lib {
            LegacyLib::NotFound => next == InstallNext::Go(InstallStage::FindConfig),
            LegacyLib::Directory => next == InstallNext::Go(
                InstallStage::RemoveLib(LegacyLibAction::RemoveTree),
            ),
            LegacyLib::OtherKind => next == InstallNext::Go(
                InstallStage::RemoveLib(LegacyLibAction::RemoveFile),
            ),
            LegacyLib::Failed(_) => next is Fail,
        },
        event is Succeeded && stage is MakeExtractDir ==> (next is Go <==> has_suffix(
            package_name(places.package@),
            ".tar.gz"@,
        )),
        event is Succeeded && stage is RemoveLib ==> next == InstallNext::Go(
            InstallStage::FindConfig,
        ),
        next matches InstallNext::Fail { keep_backup, .. } ==> (!(stage is Swap) ==> !keep_backup),
{
}

} // verus!
