//! The conversion of a tar layer, step by step. The caller performs the action
//! of each stage and reports what happened; the next stage follows from that.
use crate::fs_path::{FsPath, join_text, lemma_join_text_injective, lossy_text};
use crate::oci::{
    ApplyLayerRequest, BinaryStatus, CommitLayerRequest, ConvertLayerRequest, ConvertLayerResult,
    CreateLayerRequest, ImageConfigDoc, OverlaybdTools, StepSummary, ToolCommand,
    ToolExecutionError, WorkFile, apply_args, arg_views, binary_usable, commit_args, config_paths,
    create_args, decompress_args, image_config_doc, is_zstd, layer_uses_zstd_decompression,
    lemma_arg_views, not_text_reason, uuid_chars, work_file_name, work_file_path,
};
use crate::text::{decimal, joined, joined3};
use vstd::prelude::*;
use vstd::utf8::*;

verus! {

/// The stages of a conversion, in order.
#[derive(Debug, PartialEq, Eq)]
pub enum ConvertStage {
    /// The work directory is made.
    MakeDir,
    /// None of the files of a conversion may be there yet.
    CheckClean,
    InspectCreate,
    RunCreate,
    /// The image configuration is written.
    WriteConfig,
    InspectApply,
    /// The first bytes of the layer are read.
    ReadMagic,
    /// The layer is applied; a compressed one is piped through a decompressor.
    RunApply { piped: bool },
    InspectCommit,
    RunCommit,
    /// An intermediate file is moved out of the way. Nothing is removed before
    /// all of them are.
    SetAside(WorkFile),
    /// `failed` could not be moved out of the way, because of `cause`: this file,
    /// which was moved before, is moved back.
    Restore { file: WorkFile, failed: WorkFile, cause: String },
    /// An intermediate file that was moved out of the way is removed, if that is
    /// possible.
    Discard(WorkFile),
    /// Only the sealed layer is left.
    Done,
}

/// What is done in a stage.
#[derive(Debug)]
pub enum ConvertAction {
    CreateDir { path: FsPath },
    /// Which of these paths exists, the first that does?
    FindExisting { paths: Vec<FsPath> },
    InspectBinary { path: FsPath },
    RunTool { command: ToolCommand },
    WriteImageJson { path: FsPath, doc: ImageConfigDoc },
    /// Up to four bytes are read from the start of the file.
    ReadHead { path: FsPath },
    /// The command runs with its standard input fed by `zstd` with these
    /// arguments, where there are any.
    RunApply { decompress: Option<Vec<FsPath>>, command: ToolCommand },
    RenameFile { from: FsPath, to: FsPath },
    RemoveFile { path: FsPath },
    Finish(ConvertLayerResult),
}

/// What happened in a stage.
#[derive(Debug)]
pub enum ConvertEvent {
    Succeeded,
    Failed { cause: String },
    /// A file of a former conversion is there.
    Existing { file: WorkFile },
    Binary(BinaryStatus),
    /// The first bytes of the layer.
    Head(Vec<u8>),
    OpenFailed { cause: String },
    Tool(Result<StepSummary, ToolExecutionError>),
    /// The file that was to be moved or removed was not there.
    Missing { cause: String },
    /// The configuration could not be put into its serialized form.
    SerializeFailed { cause: String },
}

/// Whether `event` can happen in `stage`.
pub open spec fn expects(stage: ConvertStage, event: ConvertEvent) -> bool {
    match stage {
        ConvertStage::MakeDir => event is Succeeded || event is Failed,
        ConvertStage::CheckClean => event is Succeeded || event is Existing,
        ConvertStage::InspectCreate
        | ConvertStage::InspectApply
        | ConvertStage::InspectCommit => event is Binary,
        ConvertStage::RunCreate | ConvertStage::RunApply { .. } | ConvertStage::RunCommit => event
            is Tool,
        ConvertStage::WriteConfig => event is Succeeded || event is Failed || event
            is SerializeFailed,
        ConvertStage::ReadMagic => event is Head || event is OpenFailed || event is Failed,
        ConvertStage::SetAside(_)
        | ConvertStage::Restore { .. }
        | ConvertStage::Discard(_) => event is Succeeded || event is Missing || event is Failed,
        ConvertStage::Done => false,
    }
}

/// The intermediate file that is moved out of the way after `file`.
pub open spec fn next_file(file: WorkFile) -> Option<WorkFile> {
    match file {
        WorkFile::UpperData => Some(WorkFile::UpperIndex),
        WorkFile::UpperIndex => Some(WorkFile::ImageJson),
        WorkFile::ImageJson => Some(WorkFile::ResultTxt),
        _ => None,
    }
}

/// The intermediate file that is moved out of the way before `file`.
pub open spec fn previous_file(file: WorkFile) -> Option<WorkFile> {
    match file {
        WorkFile::UpperIndex => Some(WorkFile::UpperData),
        WorkFile::ImageJson => Some(WorkFile::UpperIndex),
        WorkFile::ResultTxt => Some(WorkFile::ImageJson),
        _ => None,
    }
}

/// Whether `event` says that `file` could not be moved out of the way. Only the
/// result file may be missing.
pub open spec fn not_set_aside(file: WorkFile, event: ConvertEvent) -> bool {
    event is Failed || (event is Missing && file != WorkFile::ResultTxt)
}

/// Whether a conversion has something left to do after `event` in `stage`. One
/// that fails while files are out of their place moves them back first.
pub open spec fn proceeds(stage: ConvertStage, event: ConvertEvent) -> bool {
    match stage {
        ConvertStage::SetAside(file) => !not_set_aside(file, event) || previous_file(file) is Some,
        ConvertStage::Restore { file, .. } => previous_file(file) is Some,
        ConvertStage::Discard(_) => true,
        _ => match event {
            ConvertEvent::Succeeded => true,
            ConvertEvent::Head(_) => true,
            ConvertEvent::Binary(status) => status is File,
            ConvertEvent::Tool(result) => result is Ok,
            _ => false,
        },
    }
}

/// What went wrong in `event`.
pub open spec fn event_cause(event: ConvertEvent) -> String {
    if event is Missing {
        event->Missing_cause
    } else {
        event->Failed_cause
    }
}

/// The stage after `stage` and `event` where something is left to do.
pub open spec fn following(stage: ConvertStage, event: ConvertEvent) -> ConvertStage {
    match stage {
        ConvertStage::MakeDir => ConvertStage::CheckClean,
        ConvertStage::CheckClean => ConvertStage::InspectCreate,
        ConvertStage::InspectCreate => ConvertStage::RunCreate,
        ConvertStage::RunCreate => ConvertStage::WriteConfig,
        ConvertStage::WriteConfig => ConvertStage::InspectApply,
        ConvertStage::InspectApply => ConvertStage::ReadMagic,
        ConvertStage::ReadMagic => ConvertStage::RunApply { piped: is_zstd(event->Head_0@) },
        ConvertStage::RunApply { .. } => ConvertStage::InspectCommit,
        ConvertStage::InspectCommit => ConvertStage::RunCommit,
        ConvertStage::RunCommit => ConvertStage::SetAside(WorkFile::UpperData),
        ConvertStage::SetAside(file) => if not_set_aside(file, event) {
            ConvertStage::Restore {
                file: previous_file(file)->0,
                failed: file,
                cause: event_cause(event),
            }
        } else {
            match next_file(file) {
                Some(next) => ConvertStage::SetAside(next),
                None => ConvertStage::Discard(WorkFile::UpperData),
            }
        },
        ConvertStage::Restore { file, failed, cause } => ConvertStage::Restore {
            file: previous_file(file)->0,
            failed,
            cause,
        },
        ConvertStage::Discard(file) => match next_file(file) {
            Some(next) => ConvertStage::Discard(next),
            None => ConvertStage::Done,
        },
        _ => ConvertStage::Done,
    }
}

fn file_after(file: WorkFile) -> (r: Option<WorkFile>)
    ensures
        r == next_file(file),
{
    match file {
        WorkFile::UpperData => Some(WorkFile::UpperIndex),
        WorkFile::UpperIndex => Some(WorkFile::ImageJson),
        WorkFile::ImageJson => Some(WorkFile::ResultTxt),
        _ => None,
    }
}

fn file_before(file: WorkFile) -> (r: Option<WorkFile>)
    ensures
        r == previous_file(file),
{
    match file {
        WorkFile::UpperIndex => Some(WorkFile::UpperData),
        WorkFile::ImageJson => Some(WorkFile::UpperIndex),
        WorkFile::ResultTxt => Some(WorkFile::ImageJson),
        _ => None,
    }
}

/// Where a file of a conversion in `work_dir` is moved when it is moved out of
/// the way.
pub open spec fn aside_path(work_dir: Seq<u8>, file: WorkFile) -> Seq<u8> {
    join_text(work_dir, work_file_name(file) + ".removed"@)
}

fn aside(work_dir: &FsPath, file: WorkFile) -> (r: FsPath)
    ensures
        r@ == aside_path(work_dir@, file),
{
    work_dir.join_text(joined(file.name(), ".removed").as_str())
}

/// A conversion: the programs and the request.
#[derive(Debug)]
pub struct Conversion {
    pub tools: OverlaybdTools,
    pub request: ConvertLayerRequest,
}

impl Conversion {
    /// The path of a file of this conversion.
    pub open spec fn file(&self, file: WorkFile) -> Seq<u8> {
        work_file_path(self.request.work_dir@, file)
    }

    /// What a failure in `stage` says it was doing.
    pub open spec fn context(&self, stage: ConvertStage, event: ConvertEvent) -> Seq<char> {
        match stage {
            ConvertStage::MakeDir => "create work_dir "@ + lossy_text(self.request.work_dir@),
            ConvertStage::WriteConfig => if event is SerializeFailed {
                "serialize image.json"@
            } else {
                "write "@ + lossy_text(self.file(WorkFile::ImageJson))
            },
            ConvertStage::ReadMagic => if event is OpenFailed {
                "open input OCI layer for magic detection "@ + lossy_text(
                    self.request.input_layer_path@,
                )
            } else {
                "read input OCI layer magic "@ + lossy_text(self.request.input_layer_path@)
            },
            ConvertStage::SetAside(file) => "remove conversion artifact "@ + lossy_text(
                self.file(file),
            ),
            _ => Seq::empty(),
        }
    }

    /// The program that is looked at in `stage`.
    pub open spec fn binary(&self, stage: ConvertStage) -> Seq<u8> {
        match stage {
            ConvertStage::InspectCreate => self.tools.create_bin@,
            ConvertStage::InspectApply => self.tools.apply_bin@,
            _ => self.tools.commit_bin@,
        }
    }

    /// `error` is what `event` in `stage` means to the caller of the
    /// conversion.
    pub open spec fn explains(
        &self,
        stage: ConvertStage,
        event: ConvertEvent,
        error: ToolExecutionError,
    ) -> bool {
        match stage {
            ConvertStage::Restore { failed, cause: why, .. } => error
                matches ToolExecutionError::Other { context, cause } && context@
                == "remove conversion artifact "@ + lossy_text(self.file(failed)) && cause == why,
            _ => match event {
                ConvertEvent::Existing { file } => error matches ToolExecutionError::InvalidRequest {
                    reason,
                } && reason@ == "target file already exists: "@ + lossy_text(self.file(file))
                    + "; provide a clean work_dir"@,
                ConvertEvent::Binary(BinaryStatus::Failed { cause: why }) => error
                    matches ToolExecutionError::Other { context, cause } && context@
                    == "inspect bundled overlaybd binary "@ + lossy_text(self.binary(stage)) && cause
                    == why,
                ConvertEvent::Binary(_) => error matches ToolExecutionError::MissingBinary { path }
                    && path@ == self.binary(stage),
                ConvertEvent::Tool(result) => result == Err::<StepSummary, ToolExecutionError>(error),
                ConvertEvent::Failed { cause: why }
                | ConvertEvent::OpenFailed { cause: why }
                | ConvertEvent::Missing { cause: why }
                | ConvertEvent::SerializeFailed { cause: why } => error
                    matches ToolExecutionError::Other { context, cause } && context@ == self.context(
                    stage,
                    event,
                ) && cause == why,
                _ => false,
            },
        }
    }

    fn io_error(context: String, cause: String) -> (r: ToolExecutionError)
        ensures
            r == (ToolExecutionError::Other { context, cause }),
    {
        ToolExecutionError::Other { context, cause }
    }

    fn removal_failed(&self, file: WorkFile, cause: String) -> (r: ToolExecutionError)
        ensures
            r matches ToolExecutionError::Other { context, cause: why } && context@
                == "remove conversion artifact "@ + lossy_text(self.file(file)) && why == cause,
    {
        Conversion::io_error(
            joined(
                "remove conversion artifact ",
                file.path(&self.request.work_dir).to_text_lossy().as_str(),
            ),
            cause,
        )
    }

    fn set_aside_failed(&self, file: WorkFile, cause: String) -> (r: Result<
        ConvertStage,
        ToolExecutionError,
    >)
        ensures
            match previous_file(file) {
                Some(previous) => r == Ok::<ConvertStage, ToolExecutionError>(
                    ConvertStage::Restore { file: previous, failed: file, cause },
                ),
                None => r matches Err(ToolExecutionError::Other { context, cause: why }) && context@
                    == "remove conversion artifact "@ + lossy_text(self.file(file)) && why
                    == cause,
            },
    {
        match file_before(file) {
            Some(previous) => Ok(ConvertStage::Restore { file: previous, failed: file, cause }),
            None => Err(self.removal_failed(file, cause)),
        }
    }

    fn inspected(&self, stage: ConvertStage, status: BinaryStatus, next: ConvertStage) -> (r: Result<
        ConvertStage,
        ToolExecutionError,
    >)
        requires
            !(stage is Restore),
        ensures
            r is Ok <==> status is File,
            r matches Ok(after) ==> after == next,
            r matches Err(error) ==> self.explains(stage, ConvertEvent::Binary(status), error),
    {
        let bin: &FsPath = match stage {
            ConvertStage::InspectCreate => &self.tools.create_bin,
            ConvertStage::InspectApply => &self.tools.apply_bin,
            _ => &self.tools.commit_bin,
        };
        match binary_usable(bin, status) {
            Ok(()) => Ok(next),
            Err(error) => Err(error),
        }
    }

    /// The stage after `event` in `stage`, or the error that ends the
    /// conversion. On failure the intermediate files are retained, so that they
    /// can be looked at: none is removed before all of them are out of the way,
    /// and those that are when one of them cannot be moved are moved back first.
    pub fn after(&self, stage: ConvertStage, event: ConvertEvent) -> (r: Result<
        ConvertStage,
        ToolExecutionError,
    >)
        requires
            expects(stage, event),
        ensures
            r is Ok <==> proceeds(stage, event),
            r matches Ok(next) ==> next == following(stage, event),
            r matches Err(error) ==> self.explains(stage, event, error),
    {
        match stage {
            ConvertStage::MakeDir => match event {
                ConvertEvent::Failed { cause } => Err(
                    Conversion::io_error(
                        joined(
                            "create work_dir ",
                            self.request.work_dir.to_text_lossy().as_str(),
                        ),
                        cause,
                    ),
                ),
                _ => Ok(ConvertStage::CheckClean),
            },
            ConvertStage::CheckClean => match event {
                ConvertEvent::Existing { file } => Err(
                    ToolExecutionError::InvalidRequest {
                        reason: joined3(
                            "target file already exists: ",
                            file.path(&self.request.work_dir).to_text_lossy().as_str(),
                            "; provide a clean work_dir",
                        ),
                    },
                ),
                _ => Ok(ConvertStage::InspectCreate),
            },
            ConvertStage::InspectCreate => match event {
                ConvertEvent::Binary(status) => self.inspected(
                    ConvertStage::InspectCreate,
                    status,
                    ConvertStage::RunCreate,
                ),
                _ => Ok(ConvertStage::RunCreate),
            },
            ConvertStage::RunCreate => match event {
                ConvertEvent::Tool(Err(error)) => Err(error),
                _ => Ok(ConvertStage::WriteConfig),
            },
            ConvertStage::WriteConfig => match event {
                ConvertEvent::Failed { cause } => Err(
                    Conversion::io_error(
                        joined(
                            "write ",
                            WorkFile::ImageJson.path(
                                &self.request.work_dir,
                            ).to_text_lossy().as_str(),
                        ),
                        cause,
                    ),
                ),
                ConvertEvent::SerializeFailed { cause } => Err(
                    Conversion::io_error("serialize image.json".to_owned(), cause),
                ),
                _ => Ok(ConvertStage::InspectApply),
            },
            ConvertStage::InspectApply => match event {
                ConvertEvent::Binary(status) => self.inspected(
                    ConvertStage::InspectApply,
                    status,
                    ConvertStage::ReadMagic,
                ),
                _ => Ok(ConvertStage::ReadMagic),
            },
            ConvertStage::ReadMagic => match event {
                ConvertEvent::Head(head) => Ok(
                    ConvertStage::RunApply { piped: layer_uses_zstd_decompression(&head) },
                ),
                ConvertEvent::OpenFailed { cause } => Err(
                    Conversion::io_error(
                        joined(
                            "open input OCI layer for magic detection ",
                            self.request.input_layer_path.to_text_lossy().as_str(),
                        ),
                        cause,
                    ),
                ),
                ConvertEvent::Failed { cause } => Err(
                    Conversion::io_error(
                        joined(
                            "read input OCI layer magic ",
                            self.request.input_layer_path.to_text_lossy().as_str(),
                        ),
                        cause,
                    ),
                ),
                _ => Ok(ConvertStage::RunApply { piped: false }),
            },
            ConvertStage::RunApply { .. } => match event {
                ConvertEvent::Tool(Err(error)) => Err(error),
                _ => Ok(ConvertStage::InspectCommit),
            },
            ConvertStage::InspectCommit => match event {
                ConvertEvent::Binary(status) => self.inspected(
                    ConvertStage::InspectCommit,
                    status,
                    ConvertStage::RunCommit,
                ),
                _ => Ok(ConvertStage::RunCommit),
            },
            ConvertStage::RunCommit => match event {
                ConvertEvent::Tool(Err(error)) => Err(error),
                _ => Ok(ConvertStage::SetAside(WorkFile::UpperData)),
            },
            ConvertStage::SetAside(file) => match event {
                ConvertEvent::Failed { cause } => self.set_aside_failed(file, cause),
                ConvertEvent::Missing { cause } => match file {
                    WorkFile::ResultTxt => Ok(ConvertStage::Discard(WorkFile::UpperData)),
                    _ => self.set_aside_failed(file, cause),
                },
                _ => match file_after(file) {
                    Some(next) => Ok(ConvertStage::SetAside(next)),
                    None => Ok(ConvertStage::Discard(WorkFile::UpperData)),
                },
            },
            ConvertStage::Restore { file, failed, cause } => match file_before(file) {
                Some(file) => Ok(ConvertStage::Restore { file, failed, cause }),
                None => Err(self.removal_failed(failed, cause)),
            },
            ConvertStage::Discard(file) => match file_after(file) {
                Some(next) => Ok(ConvertStage::Discard(next)),
                None => Ok(ConvertStage::Done),
            },
            ConvertStage::Done => Ok(ConvertStage::Done),
        }
    }

    /// `action` is what is done in `stage`.
    pub open spec fn acts(&self, stage: ConvertStage, action: ConvertAction) -> bool {
        let req = self.request;
        match stage {
            ConvertStage::MakeDir => action matches ConvertAction::CreateDir { path } && path@
                == req.work_dir@,
            ConvertStage::CheckClean => action matches ConvertAction::FindExisting { paths }
                && arg_views(paths@) == seq![
                self.file(WorkFile::UpperData),
                self.file(WorkFile::UpperIndex),
                self.file(WorkFile::ImageJson),
                self.file(WorkFile::LayerCommit),
                self.file(WorkFile::ResultTxt),
            ],
            ConvertStage::InspectCreate
            | ConvertStage::InspectApply
            | ConvertStage::InspectCommit => action matches ConvertAction::InspectBinary { path }
                && path@ == self.binary(stage),
            ConvertStage::RunCreate => {
                &&& action matches ConvertAction::RunTool { command }
                &&& command.program@ == self.tools.create_bin@
                &&& command.work_dir@ == req.work_dir@
                &&& arg_views(command.args@) == create_args(
                    self.file(WorkFile::UpperData),
                    self.file(WorkFile::UpperIndex),
                    req.virtual_size_gib,
                )
            },
            ConvertStage::WriteConfig => {
                &&& action matches ConvertAction::WriteImageJson { path, doc }
                &&& path@ == self.file(WorkFile::ImageJson)
                &&& doc.lowers@.len() == req.lower_layers@.len()
                &&& forall|k: int|
                    0 <= k < req.lower_layers@.len() ==> (#[trigger] doc.lowers@[k])@
                        == decode_utf8(req.lower_layers@[k]@)
                &&& doc.upper_data@ == decode_utf8(self.file(WorkFile::UpperData))
                &&& doc.upper_index@ == decode_utf8(self.file(WorkFile::UpperIndex))
                &&& doc.result_file@ == decode_utf8(self.file(WorkFile::ResultTxt))
            },
            ConvertStage::ReadMagic => action matches ConvertAction::ReadHead { path } && path@
                == req.input_layer_path@,
            ConvertStage::RunApply { piped } => {
                &&& action matches ConvertAction::RunApply { decompress, command }
                &&& decompress is Some <==> piped
                &&& (decompress matches Some(args) ==> arg_views(args@) == seq![
                    encode_utf8("-dc"@),
                    req.input_layer_path@,
                ])
                &&& command.program@ == self.tools.apply_bin@
                &&& command.work_dir@ == req.work_dir@
                &&& arg_views(command.args@) == apply_args(
                    req.global_config_path@,
                    req.mkfs,
                    piped,
                    req.input_layer_path@,
                    self.file(WorkFile::ImageJson),
                )
            },
            ConvertStage::RunCommit => {
                &&& action matches ConvertAction::RunTool { command }
                &&& command.program@ == self.tools.commit_bin@
                &&& command.work_dir@ == req.work_dir@
                &&& arg_views(command.args@) == commit_args(
                    req.uuid,
                    req.parent_uuid,
                    self.file(WorkFile::UpperData),
                    self.file(WorkFile::UpperIndex),
                    self.file(WorkFile::LayerCommit),
                )
            },
            ConvertStage::SetAside(file) => action matches ConvertAction::RenameFile { from, to }
                && from@ == self.file(file) && to@ == aside_path(req.work_dir@, file),
            ConvertStage::Restore { file, .. } => action matches ConvertAction::RenameFile {
                from,
                to,
            } && from@ == aside_path(req.work_dir@, file) && to@ == self.file(file),
            ConvertStage::Discard(file) => action matches ConvertAction::RemoveFile { path }
                && path@ == aside_path(req.work_dir@, file),
            ConvertStage::Done => action matches ConvertAction::Finish(result)
                && result.layer_commit@ == self.file(WorkFile::LayerCommit),
        }
    }

    /// The paths of the image configuration, in the order in which they are
    /// checked.
    pub open spec fn config_paths(&self) -> Seq<Seq<u8>> {
        config_paths(
            self.request.lower_layers@,
            self.file(WorkFile::UpperData),
            self.file(WorkFile::UpperIndex),
            self.file(WorkFile::ResultTxt),
        )
    }

    /// What is done in `stage`. Only the configuration can fail: its paths have
    /// to be text, and the first that is not is named in the error.
    pub fn action(&self, stage: &ConvertStage) -> (r: Result<ConvertAction, ToolExecutionError>)
        ensures
            r matches Ok(action) ==> self.acts(*stage, action),
            r is Err <==> *stage is WriteConfig && exists|k: int|
                0 <= k < self.config_paths().len() && !valid_utf8(
                    #[trigger] self.config_paths()[k],
                ),
            r matches Err(error) ==> exists|bad: int|
                {
                    &&& 0 <= bad < self.config_paths().len()
                    &&& !valid_utf8(#[trigger] self.config_paths()[bad])
                    &&& forall|k: int|
                        0 <= k < bad ==> valid_utf8(#[trigger] self.config_paths()[k])
                    &&& error matches ToolExecutionError::InvalidRequest { reason }
                    &&& reason@ == not_text_reason(self.config_paths()[bad])
                },
    {
        let work_dir: &FsPath = &self.request.work_dir;
        match stage {
            ConvertStage::MakeDir => Ok(ConvertAction::CreateDir { path: work_dir.clone() }),
            ConvertStage::CheckClean => {
                let mut paths: Vec<FsPath> = Vec::new();
                paths.push(WorkFile::UpperData.path(work_dir));
                paths.push(WorkFile::UpperIndex.path(work_dir));
                paths.push(WorkFile::ImageJson.path(work_dir));
                paths.push(WorkFile::LayerCommit.path(work_dir));
                paths.push(WorkFile::ResultTxt.path(work_dir));
                assert(arg_views(paths@) =~= seq![
                    self.file(WorkFile::UpperData),
                    self.file(WorkFile::UpperIndex),
                    self.file(WorkFile::ImageJson),
                    self.file(WorkFile::LayerCommit),
                    self.file(WorkFile::ResultTxt),
                ]);
                Ok(ConvertAction::FindExisting { paths })
            },
            ConvertStage::InspectCreate => Ok(
                ConvertAction::InspectBinary { path: self.tools.create_bin.clone() },
            ),
            ConvertStage::RunCreate => {
                let req: CreateLayerRequest = CreateLayerRequest {
                    data_file: WorkFile::UpperData.path(work_dir),
                    index_file: WorkFile::UpperIndex.path(work_dir),
                    virtual_size_gib: self.request.virtual_size_gib,
                };
                Ok(ConvertAction::RunTool { command: self.tools.create_command(&req, work_dir) })
            },
            ConvertStage::WriteConfig => {
                let data: FsPath = WorkFile::UpperData.path(work_dir);
                let index: FsPath = WorkFile::UpperIndex.path(work_dir);
                let result: FsPath = WorkFile::ResultTxt.path(work_dir);
                let ghost paths = self.config_paths();
                assert(paths == config_paths(
                    self.request.lower_layers@,
                    data@,
                    index@,
                    result@,
                ));
                match image_config_doc(&self.request.lower_layers, &data, &index, &result) {
                    Ok(doc) => {
                        assert forall|k: int| 0 <= k < paths.len() implies valid_utf8(
                            #[trigger] self.config_paths()[k],
                        ) by {
                            assert(valid_utf8(paths[k]));
                        }
                        Ok(
                            ConvertAction::WriteImageJson {
                                path: WorkFile::ImageJson.path(work_dir),
                                doc,
                            },
                        )
                    },
                    Err(error) => {
                        proof {
                            let bad = choose|bad: int|
                                {
                                    &&& 0 <= bad < paths.len()
                                    &&& !valid_utf8(#[trigger] paths[bad])
                                    &&& forall|k: int| 0 <= k < bad ==> valid_utf8(#[trigger] paths[k])
                                    &&& error matches ToolExecutionError::InvalidRequest { reason }
                                    &&& reason@ == not_text_reason(paths[bad])
                                };
                            assert(!valid_utf8(self.config_paths()[bad]));
                        }
                        Err(error)
                    },
                }
            },
            ConvertStage::InspectApply => Ok(
                ConvertAction::InspectBinary { path: self.tools.apply_bin.clone() },
            ),
            ConvertStage::ReadMagic => Ok(
                ConvertAction::ReadHead { path: self.request.input_layer_path.clone() },
            ),
            ConvertStage::RunApply { piped } => {
                let req: ApplyLayerRequest = ApplyLayerRequest {
                    input_layer_path: self.request.input_layer_path.clone(),
                    image_config_path: WorkFile::ImageJson.path(work_dir),
                    global_config_path: self.request.global_config_path.clone(),
                    mkfs: self.request.mkfs,
                };
                let piped: bool = *piped;
                let decompress: Option<Vec<FsPath>> = if piped {
                    Some(decompress_args(&self.request.input_layer_path))
                } else {
                    None
                };
                Ok(
                    ConvertAction::RunApply {
                        decompress,
                        command: self.tools.apply_command(&req, piped, work_dir),
                    },
                )
            },
            ConvertStage::InspectCommit => Ok(
                ConvertAction::InspectBinary { path: self.tools.commit_bin.clone() },
            ),
            ConvertStage::RunCommit => {
                let req: CommitLayerRequest = CommitLayerRequest {
                    data_file: WorkFile::UpperData.path(work_dir),
                    index_file: WorkFile::UpperIndex.path(work_dir),
                    commit_file: WorkFile::LayerCommit.path(work_dir),
                    uuid: self.request.uuid,
                    parent_uuid: self.request.parent_uuid,
                };
                Ok(ConvertAction::RunTool { command: self.tools.commit_command(&req, work_dir) })
            },
            ConvertStage::SetAside(file) => Ok(
                ConvertAction::RenameFile {
                    from: file.path(work_dir),
                    to: aside(work_dir, *file),
                },
            ),
            ConvertStage::Restore { file, .. } => Ok(
                ConvertAction::RenameFile {
                    from: aside(work_dir, *file),
                    to: file.path(work_dir),
                },
            ),
            ConvertStage::Discard(file) => Ok(
                ConvertAction::RemoveFile { path: aside(work_dir, *file) },
            ),
            ConvertStage::Done => Ok(
                ConvertAction::Finish(
                    ConvertLayerResult { layer_commit: WorkFile::LayerCommit.path(work_dir) },
                ),
            ),
        }
    }
}

/// The position of a stage in a conversion.
pub open spec fn position(stage: ConvertStage) -> nat {
    match stage {
        ConvertStage::MakeDir => 0,
        ConvertStage::CheckClean => 1,
        ConvertStage::InspectCreate => 2,
        ConvertStage::RunCreate => 3,
        ConvertStage::WriteConfig => 4,
        ConvertStage::InspectApply => 5,
        ConvertStage::ReadMagic => 6,
        ConvertStage::RunApply { .. } => 7,
        ConvertStage::InspectCommit => 8,
        ConvertStage::RunCommit => 9,
        ConvertStage::SetAside(file) => 10 + file_position(file),
        ConvertStage::Restore { file, .. } => (18 - file_position(file)) as nat,
        ConvertStage::Discard(file) => 14 + file_position(file),
        ConvertStage::Done => 18,
    }
}

/// The position of an intermediate file among those that are moved out of the
/// way.
pub open spec fn file_position(file: WorkFile) -> nat {
    match file {
        WorkFile::UpperData => 0,
        WorkFile::UpperIndex => 1,
        WorkFile::ImageJson => 2,
        _ => 3,
    }
}

/// The stage of a conversion after all of `events`, none of which ended it.
pub open spec fn stage_after(events: Seq<ConvertEvent>) -> ConvertStage
    decreases events.len(),
{
    if events.len() == 0 {
        ConvertStage::MakeDir
    } else {
        following(stage_after(events.drop_last()), events.last())
    }
}

/// No event ended the conversion.
pub open spec fn all_proceed(events: Seq<ConvertEvent>) -> bool
    decreases events.len(),
{
    events.len() > 0 ==> {
        let before = stage_after(events.drop_last());
        &&& all_proceed(events.drop_last())
        &&& expects(before, events.last())
        &&& proceeds(before, events.last())
    }
}

/// The layer is created, applied and sealed in this order, one stage after the
/// other, and the intermediate files are touched only once the layer was sealed.
/// A conversion is done after eighteen events, and one in which a file cannot be
/// moved out of the way has ended before.
pub proof fn law_conversion_order(events: Seq<ConvertEvent>)
    requires
        all_proceed(events),
    ensures
        !(stage_after(events) is Restore) ==> position(stage_after(events)) == events.len(),
        stage_after(events) is Restore ==> 12 <= events.len() <= 16,
        events.len() <= 18,
        stage_after(events) is Done <==> events.len() == 18,
        stage_after(events) matches ConvertStage::SetAside(file) ==> file != WorkFile::LayerCommit,
        stage_after(events) matches ConvertStage::Discard(file) ==> file != WorkFile::LayerCommit,
        stage_after(events) matches ConvertStage::Restore { file, failed, .. } ==> {
            &&& file_position(file) < file_position(failed)
            &&& events.len() == 10 + 2 * file_position(failed) - file_position(file)
            &&& file != WorkFile::LayerCommit && failed != WorkFile::LayerCommit
        },
    decreases events.len(),
{
    if events.len() > 0 {
        law_conversion_order(events.drop_last());
    }
}

/// The intermediate files that are not in their place after `events`: they were
/// moved out of the way, and not back.
pub open spec fn displaced(events: Seq<ConvertEvent>) -> Set<WorkFile>
    decreases events.len(),
{
    if events.len() == 0 {
        Set::empty()
    } else {
        let before = displaced(events.drop_last());
        match stage_after(events.drop_last()) {
            ConvertStage::SetAside(file) => if events.last() is Succeeded {
                before.insert(file)
            } else {
                before
            },
            ConvertStage::Restore { file, .. } => if events.last() is Succeeded {
                before.remove(file)
            } else {
                before
            },
            _ => before,
        }
    }
}

/// The intermediate files that could not be moved back in `events`.
pub open spec fn stuck(events: Seq<ConvertEvent>) -> Set<WorkFile>
    decreases events.len(),
{
    if events.len() == 0 {
        Set::empty()
    } else {
        let before = stuck(events.drop_last());
        match stage_after(events.drop_last()) {
            ConvertStage::Restore { file, .. } => if events.last() is Succeeded {
                before
            } else {
                before.insert(file)
            },
            _ => before,
        }
    }
}

/// The intermediate files that were removed in `events`.
pub open spec fn removed(events: Seq<ConvertEvent>) -> Set<WorkFile>
    decreases events.len(),
{
    if events.len() == 0 {
        Set::empty()
    } else {
        let before = removed(events.drop_last());
        match stage_after(events.drop_last()) {
            ConvertStage::Discard(file) => if events.last() is Succeeded {
                before.insert(file)
            } else {
                before
            },
            _ => before,
        }
    }
}

/// Whether `file` is moved out of the way before `other`.
pub open spec fn goes_before(file: WorkFile, other: WorkFile) -> bool {
    file != WorkFile::LayerCommit && file_position(file) < file_position(other)
}

/// Which files are out of their place in each stage.
proof fn lemma_displaced(events: Seq<ConvertEvent>)
    requires
        all_proceed(events),
    ensures
        match stage_after(events) {
            ConvertStage::SetAside(at) => {
                &&& removed(events) == Set::<WorkFile>::empty()
                &&& stuck(events) == Set::<WorkFile>::empty()
                &&& forall|file: WorkFile| #[trigger]
                    displaced(events).contains(file) <==> goes_before(file, at)
            },
            ConvertStage::Restore { file: at, .. } => {
                &&& removed(events) == Set::<WorkFile>::empty()
                &&& forall|file: WorkFile| #[trigger]
                    displaced(events).contains(file) <==> goes_before(file, at) || file == at
                        || stuck(events).contains(file)
                &&& forall|file: WorkFile| #[trigger]
                    stuck(events).contains(file) ==> file_position(at) < file_position(file)
            },
            ConvertStage::Discard(_) | ConvertStage::Done => {
                &&& stuck(events) == Set::<WorkFile>::empty()
                &&& forall|file: WorkFile|
                    goes_before(file, WorkFile::ResultTxt) ==> #[trigger] displaced(
                        events,
                    ).contains(file)
                &&& displaced(events).contains(WorkFile::ResultTxt) || events[13] is Missing
                &&& !displaced(events).contains(WorkFile::LayerCommit)
            },
            _ => {
                &&& removed(events) == Set::<WorkFile>::empty()
                &&& stuck(events) == Set::<WorkFile>::empty()
                &&& displaced(events) == Set::<WorkFile>::empty()
            },
        },
    decreases events.len(),
{
    if events.len() > 0 {
        let earlier = events.drop_last();
        let event = events.last();
        lemma_displaced(earlier);
        law_conversion_order(events);
        law_conversion_order(earlier);
        match stage_after(earlier) {
            ConvertStage::SetAside(at) => {
                assert forall|file: WorkFile| #[trigger]
                    displaced(events).contains(file) <==> goes_before(file, at) || (event
                        is Succeeded && file == at) by {
                    assert(displaced(earlier).contains(file) <==> goes_before(file, at));
                }
                assert(stuck(events) == stuck(earlier));
            },
            ConvertStage::Restore { file: at, .. } => {
                assert forall|file: WorkFile| #[trigger]
                    displaced(events).contains(file) <==> goes_before(file, at) || stuck(
                        events,
                    ).contains(file) by {
                    assert(displaced(earlier).contains(file) <==> goes_before(file, at) || file
                        == at || stuck(earlier).contains(file));
                    assert(stuck(earlier).contains(file) ==> file_position(at) < file_position(
                        file,
                    ));
                }
                assert forall|file: WorkFile| #[trigger] stuck(events).contains(file) implies stuck(
                    earlier,
                ).contains(file) || file == at by {}
            },
            _ => {},
        }
    }
}

/// On failure the intermediate files are retained: an error comes only while
/// nothing was removed, and every file is in its place again, but for one that
/// could not be moved back, which is still in the work directory under the name
/// that it was moved to. Until the layer is sealed no file is touched at all,
/// and once one cannot be moved, files are only moved back: no program is run.
pub proof fn law_failed_conversion_keeps_files(events: Seq<ConvertEvent>)
    requires
        all_proceed(events),
    ensures
        forall|event: ConvertEvent|
            expects(stage_after(events), event) && !(#[trigger] proceeds(
                stage_after(events),
                event,
            )) ==> removed(events) == Set::<WorkFile>::empty(),
        forall|event: ConvertEvent|
            stage_after(events) is Restore && #[trigger] proceeds(stage_after(events), event)
                ==> following(stage_after(events), event) is Restore,
        forall|event: ConvertEvent|
            expects(stage_after(events), event) && !proceeds(stage_after(events), event)
                ==> removed(
                #[trigger] events.push(event),
            ) == Set::<WorkFile>::empty() && displaced(events.push(event)) == stuck(
                events.push(event),
            ),
        events.len() <= 10 ==> removed(events) == Set::<WorkFile>::empty() && displaced(events)
            == Set::<WorkFile>::empty(),
{
    lemma_displaced(events);
    law_conversion_order(events);
    assert forall|event: ConvertEvent|
        expects(stage_after(events), event) && !proceeds(
            stage_after(events),
            event,
        ) implies removed(
        #[trigger] events.push(event),
    ) == Set::<WorkFile>::empty() && displaced(events.push(event)) == stuck(
        events.push(event),
    ) by {
        assert(events.push(event).drop_last() =~= events);
        if let ConvertStage::Restore { file: at, .. } = stage_after(events) {
            assert forall|file: WorkFile| #[trigger]
                displaced(events.push(event)).contains(file) <==> stuck(
                    events.push(event),
                ).contains(file) by {
                assert(displaced(events).contains(file) <==> goes_before(file, at) || file == at
                    || stuck(events).contains(file));
                assert(stuck(events).contains(file) ==> file_position(at) < file_position(file));
            }
        }
        if let ConvertStage::SetAside(at) = stage_after(events) {
            assert(at == WorkFile::UpperData);
            assert(displaced(events) =~= Set::<WorkFile>::empty());
        }
        assert(displaced(events.push(event)) =~= stuck(events.push(event)));
    }
    if events.len() <= 10 {
        assert(displaced(events) =~= Set::<WorkFile>::empty());
    }
}

/// On success no intermediate file is in its place: each was moved out of the
/// way before it was removed, but for a result file that was not there. The
/// sealed layer was not moved.
pub proof fn law_finished_conversion_leaves_the_layer(events: Seq<ConvertEvent>)
    requires
        all_proceed(events),
        stage_after(events) is Done,
    ensures
        displaced(events).contains(WorkFile::UpperData),
        displaced(events).contains(WorkFile::UpperIndex),
        displaced(events).contains(WorkFile::ImageJson),
        displaced(events).contains(WorkFile::ResultTxt) || events[13] is Missing,
        !displaced(events).contains(WorkFile::LayerCommit),
{
    lemma_displaced(events);
    assert(goes_before(WorkFile::UpperData, WorkFile::ResultTxt));
    assert(goes_before(WorkFile::UpperIndex, WorkFile::ResultTxt));
    assert(goes_before(WorkFile::ImageJson, WorkFile::ResultTxt));
}

/// Moving a file out of the way overwrites no file of the conversion, and no
/// other file that was moved out of the way.
pub proof fn law_aside_paths_are_free(work_dir: Seq<u8>, a: WorkFile, b: WorkFile)
    ensures
        aside_path(work_dir, a) != work_file_path(work_dir, b),
        a != b ==> aside_path(work_dir, a) != aside_path(work_dir, b),
{
    reveal_strlit("upper.data");
    reveal_strlit("upper.index");
    reveal_strlit("image.json");
    reveal_strlit("layer.commit");
    reveal_strlit("result.txt");
    reveal_strlit(".removed");
    let name_a = work_file_name(a);
    let name_b = work_file_name(b);
    let moved_a = name_a + ".removed"@;
    let moved_b = name_b + ".removed"@;
    assert(moved_a[0] == name_a[0] && moved_b[0] == name_b[0]);
    if aside_path(work_dir, a) == work_file_path(work_dir, b) {
        lemma_join_text_injective(work_dir, moved_a, name_b);
        assert(moved_a.len() > 12);
    }
    if a != b && aside_path(work_dir, a) == aside_path(work_dir, b) {
        lemma_join_text_injective(work_dir, moved_a, moved_b);
        assert(name_a[0] == name_b[0]);
        assert(moved_a.len() == moved_b.len());
    }
}

/// The sealed layer survives its conversion: no intermediate file that is
/// removed has the path of the sealed layer.
pub proof fn law_sealed_layer_is_kept(work_dir: Seq<u8>, file: WorkFile)
    requires
        file != WorkFile::LayerCommit,
    ensures
        work_file_path(work_dir, file) != work_file_path(work_dir, WorkFile::LayerCommit),
{
    reveal_strlit("upper.data");
    reveal_strlit("upper.index");
    reveal_strlit("image.json");
    reveal_strlit("layer.commit");
    reveal_strlit("result.txt");
    let name = work_file_name(file);
    let sealed = work_file_name(WorkFile::LayerCommit);
    assert(name[0] != sealed[0]);
    if work_file_path(work_dir, file) == work_file_path(work_dir, WorkFile::LayerCommit) {
        lemma_join_text_injective(work_dir, name, sealed);
    }
}

/// The stages of a conversion until its layer is sealed, in order.
pub proof fn law_conversion_stages(events: Seq<ConvertEvent>)
    requires
        all_proceed(events),
    ensures
        events.len() == 0 ==> stage_after(events) is MakeDir,
        events.len() == 1 ==> stage_after(events) is CheckClean,
        events.len() == 2 ==> stage_after(events) is InspectCreate,
        events.len() == 3 ==> stage_after(events) is RunCreate,
        events.len() == 4 ==> stage_after(events) is WriteConfig,
        events.len() == 5 ==> stage_after(events) is InspectApply,
        events.len() == 6 ==> stage_after(events) is ReadMagic,
        events.len() == 7 ==> stage_after(events) is RunApply,
        events.len() == 8 ==> stage_after(events) is InspectCommit,
        events.len() == 9 ==> stage_after(events) is RunCommit,
        events.len() == 10 ==> stage_after(events) == ConvertStage::SetAside(WorkFile::UpperData),
    decreases events.len(),
{
    if events.len() > 0 {
        law_conversion_stages(events.drop_last());
        law_conversion_order(events.drop_last());
        law_conversion_order(events);
    }
}

/// A conversion stops at once when the work directory is not clean, when a
/// program is missing or fails, and when the configuration or the layer cannot be
/// written or read; and it goes on when none of that happened.
pub proof fn law_conversion_stops_at_failures(stage: ConvertStage, event: ConvertEvent)
    requires
        expects(stage, event),
        !(stage is SetAside),
        !(stage is Restore),
        !(stage is Discard),
    ensures
        proceeds(stage, event) <==> !(event is Existing) && !(event is Failed) && !(event
            is OpenFailed) && !(event is SerializeFailed) && !(event is Missing) && (event
            matches ConvertEvent::Binary(status) ==> status is File) && (event
            matches ConvertEvent::Tool(result) ==> result is Ok),
{
}

/// A layer is piped through the decompressor exactly when its first bytes are
/// those of a compressed one.
pub proof fn law_compressed_layers_are_piped(event: ConvertEvent)
    requires
        expects(ConvertStage::ReadMagic, event),
        proceeds(ConvertStage::ReadMagic, event),
    ensures
        event is Head,
        following(ConvertStage::ReadMagic, event) == (ConvertStage::RunApply {
            piped: is_zstd(event->Head_0@),
        }),
{
}

/// What each program is called with, by what was asked for: the file system is
/// made exactly where it is, the identifiers are those of the request, and the
/// files are those of the work directory.
pub proof fn law_conversion_commands(
    conversion: Conversion,
    stage: ConvertStage,
    action: ConvertAction,
)
    requires
        conversion.acts(stage, action),
    ensures
        stage is RunCreate ==> {
            &&& action matches ConvertAction::RunTool { command }
            &&& command.program@ == conversion.tools.create_bin@
            &&& command.work_dir@ == conversion.request.work_dir@
            &&& command.args@.len() == 3
            &&& command.args@[0]@ == join_text(conversion.request.work_dir@, "upper.data"@)
            &&& command.args@[1]@ == join_text(conversion.request.work_dir@, "upper.index"@)
            &&& command.args@[2]@ == encode_utf8(
                decimal(conversion.request.virtual_size_gib as nat),
            )
        },
        stage matches ConvertStage::RunApply { piped } ==> {
            &&& action matches ConvertAction::RunApply { decompress, command }
            &&& command.program@ == conversion.tools.apply_bin@
            &&& command.work_dir@ == conversion.request.work_dir@
            &&& conversion.request.mkfs ==> command.args@.len() == 4 && command.args@[1]@
                == encode_utf8("--mkfs"@)
            &&& !conversion.request.mkfs ==> command.args@.len() == 3
            &&& command.args@[0]@ == encode_utf8(
                "--service_config_path="@ + lossy_text(conversion.request.global_config_path@),
            )
            &&& piped ==> command.args@[command.args@.len() - 2]@ == encode_utf8("/dev/stdin"@)
            &&& !piped ==> command.args@[command.args@.len() - 2]@
                == conversion.request.input_layer_path@
            &&& command.args@.last()@ == join_text(
                conversion.request.work_dir@,
                "image.json"@,
            )
            &&& decompress is Some <==> piped
            &&& decompress matches Some(args) ==> args@.len() == 2 && args@[0]@ == encode_utf8(
                "-dc"@,
            ) && args@[1]@ == conversion.request.input_layer_path@
        },
        stage is RunCommit ==> {
            &&& action matches ConvertAction::RunTool { command }
            &&& command.program@ == conversion.tools.commit_bin@
            &&& command.work_dir@ == conversion.request.work_dir@
            &&& command.args@.len() == 3 + (if conversion.request.uuid is Some {
                2int
            } else {
                0int
            }) + (if conversion.request.parent_uuid is Some {
                2int
            } else {
                0int
            })
            &&& conversion.request.uuid matches Some(id) ==> command.args@[0]@ == encode_utf8(
                "--uuid"@,
            ) && command.args@[1]@ == encode_utf8(uuid_chars(id))
            &&& conversion.request.parent_uuid matches Some(id)
                ==> command.args@[command.args@.len() - 5]@ == encode_utf8("--parent-uuid"@)
                && command.args@[command.args@.len() - 4]@ == encode_utf8(uuid_chars(id))
            &&& command.args@[command.args@.len() - 3]@ == join_text(
                conversion.request.work_dir@,
                "upper.data"@,
            )
            &&& command.args@[command.args@.len() - 2]@ == join_text(
                conversion.request.work_dir@,
                "upper.index"@,
            )
            &&& command.args@.last()@ == join_text(
                conversion.request.work_dir@,
                "layer.commit"@,
            )
        },
        stage is WriteConfig ==> {
            &&& action matches ConvertAction::WriteImageJson { path, doc }
            &&& path@ == join_text(conversion.request.work_dir@, "image.json"@)
            &&& doc.lowers@.len() == conversion.request.lower_layers@.len()
            &&& forall|k: int|
                0 <= k < doc.lowers@.len() ==> (#[trigger] doc.lowers@[k])@ == decode_utf8(
                    conversion.request.lower_layers@[k]@,
                )
            &&& doc.upper_data@ == decode_utf8(
                join_text(conversion.request.work_dir@, "upper.data"@),
            )
            &&& doc.upper_index@ == decode_utf8(
                join_text(conversion.request.work_dir@, "upper.index"@),
            )
            &&& doc.result_file@ == decode_utf8(
                join_text(conversion.request.work_dir@, "result.txt"@),
            )
        },
        stage is InspectCreate ==> (action matches ConvertAction::InspectBinary { path } && path@
            == conversion.tools.create_bin@),
        stage is InspectApply ==> (action matches ConvertAction::InspectBinary { path } && path@
            == conversion.tools.apply_bin@),
        stage is InspectCommit ==> (action matches ConvertAction::InspectBinary { path } && path@
            == conversion.tools.commit_bin@),
        stage is ReadMagic ==> (action matches ConvertAction::ReadHead { path } && path@
            == conversion.request.input_layer_path@),
        stage is CheckClean ==> {
            &&& action matches ConvertAction::FindExisting { paths }
            &&& paths@.len() == 5
            &&& forall|file: WorkFile|
                exists|k: int|
                    0 <= k < 5 && (#[trigger] paths@[k])@ == #[trigger] work_file_path(
                        conversion.request.work_dir@,
                        file,
                    )
        },
        stage is Done ==> (action matches ConvertAction::Finish(result) && result.layer_commit@
            == join_text(conversion.request.work_dir@, "layer.commit"@)),
{
    match action {
        ConvertAction::RunTool { command } => {
            lemma_arg_views(command.args@);
        },
        ConvertAction::RunApply { decompress, command } => {
            lemma_arg_views(command.args@);
            if let Some(args) = decompress {
                lemma_arg_views(args@);
            }
        },
        ConvertAction::FindExisting { paths } => {
            lemma_arg_views(paths@);
            if stage is CheckClean {
                assert forall|file: WorkFile|
                    exists|k: int|
                        0 <= k < 5 && (#[trigger] paths@[k])@ == #[trigger] work_file_path(
                            conversion.request.work_dir@,
                            file,
                        ) by {
                    let k: int = match file {
                        WorkFile::UpperData => 0,
                        WorkFile::UpperIndex => 1,
                        WorkFile::ImageJson => 2,
                        WorkFile::LayerCommit => 3,
                        WorkFile::ResultTxt => 4,
                    };
                    assert(paths@[k]@ == work_file_path(conversion.request.work_dir@, file));
                }
            }
        },
        _ => {},
    }
}

/// What a conversion that fails says: which file was in the way, which program is
/// missing, what a program failed with, or what could not be done and why.
pub proof fn law_conversion_errors(
    conversion: Conversion,
    stage: ConvertStage,
    event: ConvertEvent,
    error: ToolExecutionError,
)
    requires
        expects(stage, event),
        conversion.explains(stage, event, error),
    ensures
        event matches ConvertEvent::Existing { file } ==> (error
            matches ToolExecutionError::InvalidRequest { reason } && reason@
            == "target file already exists: "@ + lossy_text(
            join_text(conversion.request.work_dir@, work_file_name(file)),
        ) + "; provide a clean work_dir"@),
        event matches ConvertEvent::Tool(result) ==> result == Err::<
            StepSummary,
            ToolExecutionError,
        >(error),
        event matches ConvertEvent::Binary(status) ==> match status {
            BinaryStatus::Failed { cause: why } => error
                matches ToolExecutionError::Other { cause, .. } && cause == why,
            _ => error matches ToolExecutionError::MissingBinary { path } && (stage is InspectCreate
                ==> path@ == conversion.tools.create_bin@) && (stage is InspectApply ==> path@
                == conversion.tools.apply_bin@) && (stage is InspectCommit ==> path@
                == conversion.tools.commit_bin@),
        },
        stage is MakeDir ==> (error matches ToolExecutionError::Other { context, cause } && context@
            == "create work_dir "@ + lossy_text(conversion.request.work_dir@) && (event
            matches ConvertEvent::Failed { cause: why } ==> cause == why)),
        stage is WriteConfig && event is Failed ==> (error
            matches ToolExecutionError::Other { context, cause } && context@ == "write "@
            + lossy_text(join_text(conversion.request.work_dir@, "image.json"@)) && cause
            == event->Failed_cause),
        stage is WriteConfig && event is SerializeFailed ==> (error
            matches ToolExecutionError::Other { context, .. } && context@
            == "serialize image.json"@),
        stage is ReadMagic && event is OpenFailed ==> (error
            matches ToolExecutionError::Other { context, .. } && context@
            == "open input OCI layer for magic detection "@ + lossy_text(
            conversion.request.input_layer_path@,
        )),
        stage is ReadMagic && event is Failed ==> (error
            matches ToolExecutionError::Other { context, .. } && context@
            == "read input OCI layer magic "@ + lossy_text(conversion.request.input_layer_path@)),
        stage matches ConvertStage::SetAside(file) ==> (error
            matches ToolExecutionError::Other { context, .. } && context@
            == "remove conversion artifact "@ + lossy_text(
            join_text(conversion.request.work_dir@, work_file_name(file)),
        )),
        stage matches ConvertStage::Restore { failed, cause: why, .. } ==> (error
            matches ToolExecutionError::Other { context, cause } && context@
            == "remove conversion artifact "@ + lossy_text(
            join_text(conversion.request.work_dir@, work_file_name(failed)),
        ) && cause == why),
{
}

/// How the intermediate files go. They are moved out of the way one after the
/// other, the data, the index, the configuration and the result; each goes to its
/// own name with an ending, and only from there it is removed or comes back. Where
/// one cannot be moved, those before it come back, the last first, and the error
/// is that of the file that could not be moved. A result that is not there is no
/// error.
pub proof fn law_clean_up_steps(
    conversion: Conversion,
    stage: ConvertStage,
    event: ConvertEvent,
    action: ConvertAction,
)
    requires
        expects(stage, event),
    ensures
        stage == ConvertStage::SetAside(WorkFile::UpperData) && event is Succeeded ==> following(
            stage,
            event,
        ) == ConvertStage::SetAside(WorkFile::UpperIndex),
        stage == ConvertStage::SetAside(WorkFile::UpperIndex) && event is Succeeded ==> following(
            stage,
            event,
        ) == ConvertStage::SetAside(WorkFile::ImageJson),
        stage == ConvertStage::SetAside(WorkFile::ImageJson) && event is Succeeded ==> following(
            stage,
            event,
        ) == ConvertStage::SetAside(WorkFile::ResultTxt),
        stage == ConvertStage::SetAside(WorkFile::ResultTxt) && !(event is Failed) ==> following(
            stage,
            event,
        ) == ConvertStage::Discard(WorkFile::UpperData),
        stage == ConvertStage::SetAside(WorkFile::UpperData) && !(event is Succeeded) ==> !proceeds(
            stage,
            event,
        ),
        stage == ConvertStage::SetAside(WorkFile::UpperIndex) && !(event is Succeeded) ==> following(
            stage,
            event,
        ) == (ConvertStage::Restore {
            file: WorkFile::UpperData,
            failed: WorkFile::UpperIndex,
            cause: if event is Missing {
                event->Missing_cause
            } else {
                event->Failed_cause
            },
        }),
        stage == ConvertStage::SetAside(WorkFile::ImageJson) && !(event is Succeeded) ==> following(
            stage,
            event,
        ) == (ConvertStage::Restore {
            file: WorkFile::UpperIndex,
            failed: WorkFile::ImageJson,
            cause: if event is Missing {
                event->Missing_cause
            } else {
                event->Failed_cause
            },
        }),
        stage == ConvertStage::SetAside(WorkFile::ResultTxt) && event is Failed ==> following(
            stage,
            event,
        ) == (ConvertStage::Restore {
            file: WorkFile::ImageJson,
            failed: WorkFile::ResultTxt,
            cause: event->Failed_cause,
        }),
        stage matches ConvertStage::Restore { file, failed, cause } ==> (file is ImageJson
            ==> following(stage, event) == (ConvertStage::Restore {
            file: WorkFile::UpperIndex,
            failed,
            cause,
        })) && (file is UpperIndex ==> following(stage, event) == (ConvertStage::Restore {
            file: WorkFile::UpperData,
            failed,
            cause,
        })) && (file is UpperData ==> !proceeds(stage, event)),
        stage == ConvertStage::Discard(WorkFile::UpperData) ==> following(stage, event)
            == ConvertStage::Discard(WorkFile::UpperIndex),
        stage == ConvertStage::Discard(WorkFile::UpperIndex) ==> following(stage, event)
            == ConvertStage::Discard(WorkFile::ImageJson),
        stage == ConvertStage::Discard(WorkFile::ImageJson) ==> following(stage, event)
            == ConvertStage::Discard(WorkFile::ResultTxt),
        stage == ConvertStage::Discard(WorkFile::ResultTxt) ==> following(stage, event) is Done,
        stage matches ConvertStage::SetAside(file) ==> (conversion.acts(stage, action) ==> (action
            matches ConvertAction::RenameFile { from, to } && from@ == join_text(
            conversion.request.work_dir@,
            work_file_name(file),
        ) && to@ == join_text(
            conversion.request.work_dir@,
            work_file_name(file) + ".removed"@,
        ))),
        stage matches ConvertStage::Restore { file, .. } ==> (conversion.acts(stage, action) ==> (
        action matches ConvertAction::RenameFile { from, to } && from@ == join_text(
            conversion.request.work_dir@,
            work_file_name(file) + ".removed"@,
        ) && to@ == join_text(conversion.request.work_dir@, work_file_name(file)))),
        stage matches ConvertStage::Discard(file) ==> (conversion.acts(stage, action) ==> (action
            matches ConvertAction::RemoveFile { path } && path@ == join_text(
            conversion.request.work_dir@,
            work_file_name(file) + ".removed"@,
        ))),
{
}

/// The paths that have to be text are the lower layers in their order, then the
/// data, the index and the result of the work directory.
pub proof fn law_config_paths(conversion: Conversion)
    ensures
        ({
            let paths = conversion.config_paths();
            let n = conversion.request.lower_layers@.len() as int;
            &&& paths.len() == n + 3
            &&& forall|k: int|
                0 <= k < n ==> #[trigger] paths[k] == conversion.request.lower_layers@[k]@
            &&& paths[n] == join_text(conversion.request.work_dir@, "upper.data"@)
            &&& paths[n + 1] == join_text(conversion.request.work_dir@, "upper.index"@)
            &&& paths[n + 2] == join_text(conversion.request.work_dir@, "result.txt"@)
        }),
{
}

} // verus!
