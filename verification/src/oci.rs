//! Conversion of one tar layer into a sealed overlaybd layer: which programs
//! run with which arguments, in which order, and what their failures mean.
use crate::fs_path::{FsPath, join_text, lossy_text};
use crate::text::{decimal, decimal_text, joined, joined3};
use vstd::prelude::*;
use vstd::utf8::*;

verus! {

/// The overlaybd programs.
#[derive(Debug)]
pub struct OverlaybdTools {
    pub create_bin: FsPath,
    pub apply_bin: FsPath,
    pub commit_bin: FsPath,
}

/// What is needed to make a writable layer.
#[derive(Debug)]
pub struct CreateLayerRequest {
    pub data_file: FsPath,
    pub index_file: FsPath,
    /// The virtual size in GiB.
    pub virtual_size_gib: u64,
}

/// What is needed to apply a tar layer to a writable layer.
#[derive(Debug)]
pub struct ApplyLayerRequest {
    pub input_layer_path: FsPath,
    pub image_config_path: FsPath,
    pub global_config_path: FsPath,
    pub mkfs: bool,
}

/// What is needed to seal a writable layer.
#[derive(Debug)]
pub struct CommitLayerRequest {
    pub data_file: FsPath,
    pub index_file: FsPath,
    pub commit_file: FsPath,
    /// The identifier of the layer, as its 128-bit value.
    pub uuid: Option<u128>,
    /// The identifier of the layer below, as its 128-bit value.
    pub parent_uuid: Option<u128>,
}

/// A tar layer that is to be converted.
#[derive(Debug)]
pub struct ConvertLayerRequest {
    pub work_dir: FsPath,
    pub input_layer_path: FsPath,
    pub global_config_path: FsPath,
    pub virtual_size_gib: u64,
    pub mkfs: bool,
    pub lower_layers: Vec<FsPath>,
    /// The identifier of the layer, as its 128-bit value.
    pub uuid: Option<u128>,
    /// The identifier of the layer below, as its 128-bit value.
    pub parent_uuid: Option<u128>,
}

/// A finished conversion.
#[derive(Debug)]
pub struct ConvertLayerResult {
    /// Final sealed overlaybd lower layer produced by the conversion.
    pub layer_commit: FsPath,
}

/// What a program wrote.
#[derive(Debug)]
pub struct StepSummary {
    pub stdout: String,
    pub stderr: String,
}

/// Why a conversion failed.
#[derive(Debug)]
pub enum ToolExecutionError {
    MissingBinary { path: FsPath },
    InvalidRequest { reason: String },
    NonZeroExit {
        command_line: String,
        exit_code: Option<i32>,
        stdout: String,
        stderr: String,
    },
    /// Something else went wrong while `context` was done.
    Other { context: String, cause: String },
}

/// The decimal digits of `n`, with a sign where it is negative.
pub open spec fn signed_decimal(n: int) -> Seq<char> {
    if n < 0 {
        "-"@ + decimal((-n) as nat)
    } else {
        decimal(n as nat)
    }
}

/// An exit code as it is written in messages.
pub open spec fn exit_code_text(code: Option<i32>) -> Seq<char> {
    match code {
        Some(code) => "Some("@ + signed_decimal(code as int) + ")"@,
        None => "None"@,
    }
}

fn exit_code_string(code: Option<i32>) -> (r: String)
    ensures
        r@ == exit_code_text(code),
{
    match code {
        Some(code) => {
            let wide: i64 = code as i64;
            let digits: String = if wide < 0 {
                joined("-", decimal_text((-wide) as u64).as_str())
            } else {
                decimal_text(wide as u64)
            };
            joined3("Some(", digits.as_str(), ")")
        },
        None => "None".to_owned(),
    }
}

/// The text of an error.
pub open spec fn tool_error_text(error: ToolExecutionError) -> Seq<char> {
    match error {
        ToolExecutionError::MissingBinary { path } => "overlaybd tool binary not found at "@
            + lossy_text(path@),
        ToolExecutionError::InvalidRequest { reason } => reason@,
        ToolExecutionError::NonZeroExit { command_line, exit_code, stderr, .. } => "tool failed: "@
            + command_line@ + "\nexit code: "@ + exit_code_text(exit_code) + "\nstderr: "@
            + stderr@,
        ToolExecutionError::Other { context, .. } => context@,
    }
}

impl ToolExecutionError {
    /// The text of this error.
    pub fn message(&self) -> (r: String)
        ensures
            r@ == tool_error_text(*self),
    {
        match self {
            ToolExecutionError::MissingBinary { path } => joined(
                "overlaybd tool binary not found at ",
                path.to_text_lossy().as_str(),
            ),
            ToolExecutionError::InvalidRequest { reason } => reason.clone(),
            ToolExecutionError::NonZeroExit { command_line, exit_code, stderr, .. } => {
                let head: String = joined3("tool failed: ", command_line.as_str(), "\nexit code: ");
                let code: String = joined(head.as_str(), exit_code_string(*exit_code).as_str());
                joined3(code.as_str(), "\nstderr: ", stderr.as_str())
            },
            ToolExecutionError::Other { context, .. } => context.clone(),
        }
    }
}

/// The files of a conversion in its work directory.
#[derive(Debug, Clone, Copy, PartialEq, Eq, Structural)]
pub enum WorkFile {
    UpperData,
    UpperIndex,
    ImageJson,
    LayerCommit,
    ResultTxt,
}

/// The name of a file of a conversion.
pub open spec fn work_file_name(file: WorkFile) -> Seq<char> {
    match file {
        WorkFile::UpperData => "upper.data"@,
        WorkFile::UpperIndex => "upper.index"@,
        WorkFile::ImageJson => "image.json"@,
        WorkFile::LayerCommit => "layer.commit"@,
        WorkFile::ResultTxt => "result.txt"@,
    }
}

/// The path of a file of a conversion in `work_dir`.
pub open spec fn work_file_path(work_dir: Seq<u8>, file: WorkFile) -> Seq<u8> {
    join_text(work_dir, work_file_name(file))
}

impl WorkFile {
    /// The name of this file.
    pub fn name(self) -> (r: &'static str)
        ensures
            r@ == work_file_name(self),
    {
        match self {
            WorkFile::UpperData => "upper.data",
            WorkFile::UpperIndex => "upper.index",
            WorkFile::ImageJson => "image.json",
            WorkFile::LayerCommit => "layer.commit",
            WorkFile::ResultTxt => "result.txt",
        }
    }

    /// The path of this file in `work_dir`.
    pub fn path(self, work_dir: &FsPath) -> (r: FsPath)
        ensures
            r@ == work_file_path(work_dir@, self),
    {
        work_dir.join_text(self.name())
    }
}

/// A program with its arguments and the directory it runs in.
#[derive(Debug)]
pub struct ToolCommand {
    pub program: FsPath,
    pub args: Vec<FsPath>,
    pub work_dir: FsPath,
}

/// The arguments as byte strings.
pub open spec fn arg_views(args: Seq<FsPath>) -> Seq<Seq<u8>> {
    args.map_values(|a: FsPath| a@)
}

proof fn lemma_arg_views_push(args: Seq<FsPath>, arg: FsPath)
    ensures
        arg_views(args.push(arg)) == arg_views(args).push(arg@),
{
    assert(arg_views(args.push(arg)) =~= arg_views(args).push(arg@));
}

/// The arguments one by one.
pub proof fn lemma_arg_views(args: Seq<FsPath>)
    ensures
        arg_views(args).len() == args.len(),
        forall|k: int| 0 <= k < args.len() ==> arg_views(args)[k] == (#[trigger] args[k])@,
{
}

fn push_arg(args: &mut Vec<FsPath>, arg: FsPath)
    ensures
        arg_views(final(args)@) == arg_views(old(args)@).push(arg@),
{
    proof {
        lemma_arg_views_push(args@, arg);
    }
    args.push(arg);
}

/// The character of one hexadecimal digit, in lower case.
pub open spec fn hex_digit(nibble: int) -> char {
    if nibble < 10 {
        (('0' as u32) + nibble) as char
    } else {
        (('a' as u32) + (nibble - 10)) as char
    }
}

/// How many hyphens stand before position `i` of a written identifier.
pub open spec fn hyphens_before(i: int) -> int {
    (if i > 8 {
        1int
    } else {
        0int
    }) + (if i > 13 {
        1int
    } else {
        0int
    }) + (if i > 18 {
        1int
    } else {
        0int
    }) + (if i > 23 {
        1int
    } else {
        0int
    })
}

/// An identifier as it is written: its 32 hexadecimal digits in groups of 8, 4,
/// 4, 4 and 12 with hyphens between them.
pub open spec fn uuid_chars(value: u128) -> Seq<char> {
    Seq::new(
        36,
        |i: int|
            if i == 8 || i == 13 || i == 18 || i == 23 {
                '-'
            } else {
                hex_digit(
                    (value >> ((4 * (31 - (i - hyphens_before(i)))) as u128) & 0xf) as int,
                )
            },
    )
}

/// `uuid::Uuid::from_u128` and its `Display`: the hyphenated form in lower
/// case, the most significant digit first.
#[verifier::external_body]
fn uuid_text(value: u128) -> (r: String)
    ensures
        r@ == uuid_chars(value),
{
    uuid::Uuid::from_u128(value).to_string()
}

/// The arguments that name an identifier: none, or `flag` and its text.
pub open spec fn uuid_args(flag: Seq<char>, value: Option<u128>) -> Seq<Seq<u8>> {
    match value {
        Some(value) => seq![encode_utf8(flag), encode_utf8(uuid_chars(value))],
        None => Seq::empty(),
    }
}

/// The arguments of the program that makes a writable layer.
pub open spec fn create_args(data: Seq<u8>, index: Seq<u8>, gib: u64) -> Seq<Seq<u8>> {
    seq![data, index, encode_utf8(decimal(gib as nat))]
}

/// The arguments of the program that applies a tar layer. A piped layer comes
/// in through standard input.
pub open spec fn apply_args(
    global_config: Seq<u8>,
    mkfs: bool,
    piped: bool,
    input: Seq<u8>,
    image_config: Seq<u8>,
) -> Seq<Seq<u8>> {
    seq![encode_utf8("--service_config_path="@ + lossy_text(global_config))] + (if mkfs {
        seq![encode_utf8("--mkfs"@)]
    } else {
        Seq::empty()
    }) + seq![
        if piped {
            encode_utf8("/dev/stdin"@)
        } else {
            input
        },
        image_config,
    ]
}

/// The arguments of the program that seals a writable layer.
pub open spec fn commit_args(
    uuid: Option<u128>,
    parent_uuid: Option<u128>,
    data: Seq<u8>,
    index: Seq<u8>,
    commit: Seq<u8>,
) -> Seq<Seq<u8>> {
    uuid_args("--uuid"@, uuid) + uuid_args("--parent-uuid"@, parent_uuid) + seq![
        data,
        index,
        commit,
    ]
}

impl OverlaybdTools {
    /// The programs in `bin_dir`.
    pub fn from_bin_dir(bin_dir: &FsPath) -> (r: OverlaybdTools)
        ensures
            r.create_bin@ == join_text(bin_dir@, "overlaybd-create"@),
            r.apply_bin@ == join_text(bin_dir@, "overlaybd-apply"@),
            r.commit_bin@ == join_text(bin_dir@, "overlaybd-commit"@),
    {
        OverlaybdTools {
            create_bin: bin_dir.join_text("overlaybd-create"),
            apply_bin: bin_dir.join_text("overlaybd-apply"),
            commit_bin: bin_dir.join_text("overlaybd-commit"),
        }
    }

    /// The programs of an overlaybd installation.
    pub fn from_overlaybd_install_root(root: &FsPath) -> (r: OverlaybdTools)
        ensures
            r.create_bin@ == join_text(join_text(root@, "bin"@), "overlaybd-create"@),
            r.apply_bin@ == join_text(join_text(root@, "bin"@), "overlaybd-apply"@),
            r.commit_bin@ == join_text(join_text(root@, "bin"@), "overlaybd-commit"@),
    {
        OverlaybdTools::from_bin_dir(&root.join_text("bin"))
    }

    /// The command that makes a writable layer.
    pub fn create_command(&self, req: &CreateLayerRequest, work_dir: &FsPath) -> (r: ToolCommand)
        ensures
            r.program@ == self.create_bin@,
            r.work_dir@ == work_dir@,
            arg_views(r.args@) == create_args(
                req.data_file@,
                req.index_file@,
                req.virtual_size_gib,
            ),
            r.args@.len() == 3,
            r.args@[0]@ == req.data_file@,
            r.args@[1]@ == req.index_file@,
            r.args@[2]@ == encode_utf8(decimal(req.virtual_size_gib as nat)),
    {
        let mut args: Vec<FsPath> = Vec::new();
        push_arg(&mut args, req.data_file.clone());
        push_arg(&mut args, req.index_file.clone());
        push_arg(&mut args, FsPath::from_text(decimal_text(req.virtual_size_gib).as_str()));
        assert(arg_views(args@) =~= create_args(
            req.data_file@,
            req.index_file@,
            req.virtual_size_gib,
        ));
        proof {
            lemma_arg_views(args@);
        }
        ToolCommand { program: self.create_bin.clone(), args, work_dir: work_dir.clone() }
    }

    /// The command that applies a tar layer. A piped layer comes in through
    /// standard input.
    pub fn apply_command(&self, req: &ApplyLayerRequest, piped: bool, work_dir: &FsPath) -> (r:
        ToolCommand)
        ensures
            r.program@ == self.apply_bin@,
            r.work_dir@ == work_dir@,
            arg_views(r.args@) == apply_args(
                req.global_config_path@,
                req.mkfs,
                piped,
                req.input_layer_path@,
                req.image_config_path@,
            ),
            r.args@.len() == (if req.mkfs {
                4int
            } else {
                3int
            }),
            r.args@[0]@ == encode_utf8(
                "--service_config_path="@ + lossy_text(req.global_config_path@),
            ),
            req.mkfs ==> r.args@[1]@ == encode_utf8("--mkfs"@),
            piped ==> r.args@[r.args@.len() - 2]@ == encode_utf8("/dev/stdin"@),
            !piped ==> r.args@[r.args@.len() - 2]@ == req.input_layer_path@,
            r.args@.last()@ == req.image_config_path@,
    {
        let mut args: Vec<FsPath> = Vec::new();
        let service: String = joined(
            "--service_config_path=",
            req.global_config_path.to_text_lossy().as_str(),
        );
        push_arg(&mut args, FsPath::from_text(service.as_str()));
        if req.mkfs {
            push_arg(&mut args, FsPath::from_text("--mkfs"));
        }
        if piped {
            push_arg(&mut args, FsPath::from_text("/dev/stdin"));
        } else {
            push_arg(&mut args, req.input_layer_path.clone());
        }
        push_arg(&mut args, req.image_config_path.clone());
        assert(arg_views(args@) =~= apply_args(
            req.global_config_path@,
            req.mkfs,
            piped,
            req.input_layer_path@,
            req.image_config_path@,
        ));
        proof {
            lemma_arg_views(args@);
        }
        ToolCommand { program: self.apply_bin.clone(), args, work_dir: work_dir.clone() }
    }

    /// The command that seals a writable layer.
    pub fn commit_command(&self, req: &CommitLayerRequest, work_dir: &FsPath) -> (r: ToolCommand)
        ensures
            r.program@ == self.commit_bin@,
            r.work_dir@ == work_dir@,
            arg_views(r.args@) == commit_args(
                req.uuid,
                req.parent_uuid,
                req.data_file@,
                req.index_file@,
                req.commit_file@,
            ),
            r.args@.len() == 3 + (if req.uuid is Some {
                2int
            } else {
                0int
            }) + (if req.parent_uuid is Some {
                2int
            } else {
                0int
            }),
            req.uuid matches Some(uuid) ==> r.args@[0]@ == encode_utf8("--uuid"@) && r.args@[1]@
                == encode_utf8(uuid_chars(uuid)),
            req.parent_uuid matches Some(parent) ==> r.args@[r.args@.len() - 5]@ == encode_utf8(
                "--parent-uuid"@,
            ) && r.args@[r.args@.len() - 4]@ == encode_utf8(uuid_chars(parent)),
            r.args@[r.args@.len() - 3]@ == req.data_file@,
            r.args@[r.args@.len() - 2]@ == req.index_file@,
            r.args@.last()@ == req.commit_file@,
    {
        let mut args: Vec<FsPath> = Vec::new();
        if let Some(uuid) = req.uuid {
            push_arg(&mut args, FsPath::from_text("--uuid"));
            push_arg(&mut args, FsPath::from_text(uuid_text(uuid).as_str()));
        }
        if let Some(parent_uuid) = req.parent_uuid {
            push_arg(&mut args, FsPath::from_text("--parent-uuid"));
            push_arg(&mut args, FsPath::from_text(uuid_text(parent_uuid).as_str()));
        }
        push_arg(&mut args, req.data_file.clone());
        push_arg(&mut args, req.index_file.clone());
        push_arg(&mut args, req.commit_file.clone());
        assert(arg_views(args@) =~= commit_args(
            req.uuid,
            req.parent_uuid,
            req.data_file@,
            req.index_file@,
            req.commit_file@,
        ));
        proof {
            lemma_arg_views(args@);
        }
        ToolCommand { program: self.commit_bin.clone(), args, work_dir: work_dir.clone() }
    }
}

/// The arguments with which `zstd` writes the plain tar stream of `input` to
/// its standard output.
pub fn decompress_args(input: &FsPath) -> (r: Vec<FsPath>)
    ensures
        arg_views(r@) == seq![encode_utf8("-dc"@), input@],
        r@.len() == 2,
        r@[0]@ == encode_utf8("-dc"@),
        r@[1]@ == input@,
{
    let mut args: Vec<FsPath> = Vec::new();
    push_arg(&mut args, FsPath::from_text("-dc"));
    push_arg(&mut args, input.clone());
    assert(arg_views(args@) =~= seq![encode_utf8("-dc"@), input@]);
    proof {
        lemma_arg_views(args@);
    }
    args
}

/// What is at the path of a program.
#[derive(Debug)]
pub enum BinaryStatus {
    File,
    /// Something that is no file.
    OtherKind,
    NotFound,
    /// It could not be looked at.
    Failed { cause: String },
}

/// Whether a program can be run.
pub fn binary_usable(bin: &FsPath, status: BinaryStatus) -> (r: Result<(), ToolExecutionError>)
    ensures
        match status {
            BinaryStatus::File => r is Ok,
            BinaryStatus::OtherKind | BinaryStatus::NotFound => r matches Err(
                ToolExecutionError::MissingBinary { path },
            ) && path@ == bin@,
            BinaryStatus::Failed { cause: why } => r matches Err(
                ToolExecutionError::Other { context, cause },
            ) && context@ == "inspect bundled overlaybd binary "@ + lossy_text(bin@) && cause
                == why,
        },
{
    match status {
        BinaryStatus::File => Ok(()),
        BinaryStatus::OtherKind => Err(ToolExecutionError::MissingBinary { path: bin.clone() }),
        BinaryStatus::NotFound => Err(ToolExecutionError::MissingBinary { path: bin.clone() }),
        BinaryStatus::Failed { cause } => Err(
            ToolExecutionError::Other {
                context: joined(
                    "inspect bundled overlaybd binary ",
                    bin.to_text_lossy().as_str(),
                ),
                cause,
            },
        ),
    }
}

/// How a program ended.
#[derive(Debug)]
pub struct ToolExit {
    pub success: bool,
    /// The exit code; a program that was killed has none.
    pub code: Option<i32>,
    pub stdout: FsPath,
    pub stderr: FsPath,
}

/// What the end of a program means.
pub fn tool_outcome(command_line: String, exit: &ToolExit) -> (r: Result<
    StepSummary,
    ToolExecutionError,
>)
    ensures
        exit.success ==> (r matches Ok(summary) && summary.stdout@ == lossy_text(exit.stdout@)
            && summary.stderr@ == lossy_text(exit.stderr@)),
        !exit.success ==> (r matches Err(
            ToolExecutionError::NonZeroExit { command_line: line, exit_code, stdout, stderr },
        ) && line == command_line && exit_code == exit.code && stdout@ == lossy_text(
            exit.stdout@,
        ) && stderr@ == lossy_text(exit.stderr@)),
{
    let stdout: String = exit.stdout.to_text_lossy();
    let stderr: String = exit.stderr.to_text_lossy();
    if exit.success {
        Ok(StepSummary { stdout, stderr })
    } else {
        Err(
            ToolExecutionError::NonZeroExit {
                command_line,
                exit_code: exit.code,
                stdout,
                stderr,
            },
        )
    }
}

/// How the decompressor beside the apply program ended.
#[derive(Debug)]
pub enum DecompressorEnd {
    Exited { success: bool, code: Option<i32>, stderr: FsPath },
    /// It could not be waited for.
    WaitFailed { cause: String },
    /// The task that reads its standard error broke down.
    JoinFailed { cause: String },
    /// Its standard error could not be read.
    ReadFailed { cause: String },
}

/// What a failure to follow the decompressor says it was doing.
pub open spec fn decompressor_context(end: DecompressorEnd, command_line: Seq<char>) -> Seq<char> {
    match end {
        DecompressorEnd::Exited { .. } => command_line,
        DecompressorEnd::WaitFailed { .. } => "wait for layer decompressor: "@ + command_line,
        DecompressorEnd::JoinFailed { .. } => "join stderr reader for layer decompressor: "@
            + command_line,
        DecompressorEnd::ReadFailed { .. } => "read stderr from layer decompressor: "@
            + command_line,
    }
}

/// What applying a layer means as a whole. A decompressor that failed outweighs
/// whatever the apply program made of the broken stream.
pub fn apply_outcome(
    decompressor: Option<(String, DecompressorEnd)>,
    applied: Result<StepSummary, ToolExecutionError>,
) -> (r: Result<StepSummary, ToolExecutionError>)
    ensures
        match decompressor {
            None => r == applied,
            Some((line, end)) => match end {
                DecompressorEnd::Exited { success, code, stderr: err } => if success {
                    r == applied
                } else {
                    r matches Err(
                        ToolExecutionError::NonZeroExit { command_line, exit_code, stdout, stderr },
                    ) && command_line == line && exit_code == code && stdout@.len() == 0 && stderr@
                        == lossy_text(err@)
                },
                DecompressorEnd::WaitFailed { cause: why }
                | DecompressorEnd::JoinFailed { cause: why }
                | DecompressorEnd::ReadFailed { cause: why } => r matches Err(
                    ToolExecutionError::Other { context, cause },
                ) && context@ == decompressor_context(end, line@) && cause == why,
            },
        },
{
    match decompressor {
        None => applied,
        Some((line, end)) => match end {
            DecompressorEnd::Exited { success, code, stderr } => if success {
                applied
            } else {
                Err(
                    ToolExecutionError::NonZeroExit {
                        command_line: line,
                        exit_code: code,
                        stdout: String::new(),
                        stderr: stderr.to_text_lossy(),
                    },
                )
            },
            DecompressorEnd::WaitFailed { cause } => Err(
                ToolExecutionError::Other {
                    context: joined("wait for layer decompressor: ", line.as_str()),
                    cause,
                },
            ),
            DecompressorEnd::JoinFailed { cause } => Err(
                ToolExecutionError::Other {
                    context: joined("join stderr reader for layer decompressor: ", line.as_str()),
                    cause,
                },
            ),
            DecompressorEnd::ReadFailed { cause } => Err(
                ToolExecutionError::Other {
                    context: joined("read stderr from layer decompressor: ", line.as_str()),
                    cause,
                },
            ),
        },
    }
}

/// Four bytes as a number, the least significant byte first.
pub open spec fn little_endian(magic: Seq<u8>) -> int {
    magic[0] + 0x100 * magic[1] + 0x10000 * magic[2] + 0x1000000 * magic[3]
}

/// The first four bytes of a Zstandard frame, or of one of the sixteen kinds
/// of frames that a decoder skips.
pub open spec fn is_zstd(head: Seq<u8>) -> bool {
    head.len() == 4 && (head == seq![0x28u8, 0xb5u8, 0x2fu8, 0xfdu8] || 0x184D2A50
        <= little_endian(head) <= 0x184D2A5F)
}

/// Whether a layer that begins with `head`, its first four bytes or all of it
/// where it is shorter, has to be decompressed.
pub fn layer_uses_zstd_decompression(head: &Vec<u8>) -> (r: bool)
    ensures
        r == is_zstd(head@),
{
    if head.len() != 4 {
        return false;
    }
    if head[0] == 0x28 && head[1] == 0xb5 && head[2] == 0x2f && head[3] == 0xfd {
        assert(head@ =~= seq![0x28u8, 0xb5u8, 0x2fu8, 0xfdu8]);
        return true;
    }
    let value: u32 = (head[0] as u32) + 0x100 * (head[1] as u32) + 0x10000 * (head[2] as u32)
        + 0x1000000 * (head[3] as u32);
    0x184D2A50 <= value && value <= 0x184D2A5F
}

/// What is written to the image configuration of a conversion.
#[derive(Debug)]
pub struct ImageConfigDoc {
    pub lowers: Vec<String>,
    pub upper_data: String,
    pub upper_index: String,
    pub result_file: String,
}

/// The text of the error for a path that is no text.
pub open spec fn not_text_reason(path: Seq<u8>) -> Seq<char> {
    "path contains non-UTF-8 bytes and cannot be serialized into overlaybd image config: "@
        + lossy_text(path)
}

/// A path as it is written to a configuration.
pub fn path_to_json_string(path: &FsPath) -> (r: Result<String, ToolExecutionError>)
    ensures
        valid_utf8(path@) ==> (r matches Ok(text) && text@ == decode_utf8(path@)),
        !valid_utf8(path@) ==> (r matches Err(ToolExecutionError::InvalidRequest { reason })
            && reason@ == not_text_reason(path@)),
{
    match path.to_text() {
        Some(text) => Ok(text),
        None => Err(
            ToolExecutionError::InvalidRequest {
                reason: joined(
                    "path contains non-UTF-8 bytes and cannot be serialized into overlaybd image config: ",
                    path.to_text_lossy().as_str(),
                ),
            },
        ),
    }
}

/// The paths of an image configuration, in the order in which they are
/// checked.
pub open spec fn config_paths(
    lowers: Seq<FsPath>,
    data: Seq<u8>,
    index: Seq<u8>,
    result: Seq<u8>,
) -> Seq<Seq<u8>> {
    arg_views(lowers) + seq![data, index, result]
}

/// The image configuration of a conversion. Every path has to be text; the
/// first that is not is named in the error.
pub fn image_config_doc(
    lower_layers: &Vec<FsPath>,
    upper_data: &FsPath,
    upper_index: &FsPath,
    result_file: &FsPath,
) -> (r: Result<ImageConfigDoc, ToolExecutionError>)
    ensures
        ({
            let paths = config_paths(lower_layers@, upper_data@, upper_index@, result_file@);
            match r {
                Ok(doc) => {
                    &&& forall|k: int| 0 <= k < paths.len() ==> valid_utf8(#[trigger] paths[k])
                    &&& doc.lowers@.len() == lower_layers@.len()
                    &&& forall|k: int|
                        0 <= k < lower_layers@.len() ==> (#[trigger] doc.lowers@[k])@
                            == decode_utf8(lower_layers@[k]@)
                    &&& doc.upper_data@ == decode_utf8(upper_data@)
                    &&& doc.upper_index@ == decode_utf8(upper_index@)
                    &&& doc.result_file@ == decode_utf8(result_file@)
                },
                Err(error) => exists|bad: int|
                    {
                        &&& 0 <= bad < paths.len()
                        &&& !valid_utf8(#[trigger] paths[bad])
                        &&& forall|k: int| 0 <= k < bad ==> valid_utf8(#[trigger] paths[k])
                        &&& error matches ToolExecutionError::InvalidRequest { reason }
                        &&& reason@ == not_text_reason(paths[bad])
                    },
            }
        }),
{
    let ghost paths = config_paths(lower_layers@, upper_data@, upper_index@, result_file@);
    let ghost n = lower_layers@.len() as int;
    assert(paths.len() == n + 3);
    assert(paths[n] == upper_data@ && paths[n + 1] == upper_index@ && paths[n + 2]
        == result_file@);
    assert forall|k: int| 0 <= k < n implies #[trigger] paths[k] == lower_layers@[k]@ by {}
    let mut lowers: Vec<String> = Vec::new();
    let mut i: usize = 0;
    while i < lower_layers.len()
        invariant
            i <= lower_layers@.len(),
            lowers@.len() == i,
            n == lower_layers@.len(),
            paths.len() == n + 3,
            forall|k: int| 0 <= k < n ==> #[trigger] paths[k] == lower_layers@[k]@,
            forall|k: int| 0 <= k < i ==> valid_utf8(#[trigger] paths[k]),
            forall|k: int|
                0 <= k < i ==> (#[trigger] lowers@[k])@ == decode_utf8(lower_layers@[k]@),
            paths == config_paths(lower_layers@, upper_data@, upper_index@, result_file@),
        decreases lower_layers@.len() - i,
    {
        assert(paths[i as int] == lower_layers@[i as int]@);
        match path_to_json_string(&lower_layers[i]) {
            Ok(text) => {
                lowers.push(text);
            },
            Err(error) => {
                assert(!valid_utf8(paths[i as int]));
                return Err(error);
            },
        }
        i = i + 1;
    }
    let data: String = match path_to_json_string(upper_data) {
        Ok(text) => text,
        Err(error) => {
            assert(!valid_utf8(paths[n]));
            return Err(error);
        },
    };
    let index: String = match path_to_json_string(upper_index) {
        Ok(text) => text,
        Err(error) => {
            assert(!valid_utf8(paths[n + 1]));
            return Err(error);
        },
    };
    let result: String = match path_to_json_string(result_file) {
        Ok(text) => text,
        Err(error) => {
            assert(!valid_utf8(paths[n + 2]));
            return Err(error);
        },
    };
    Ok(ImageConfigDoc { lowers, upper_data: data, upper_index: index, result_file: result })
}

/// The program that applies a layer is told to make a file system exactly where
/// that is asked for, before the layer and the image configuration, which are
/// always its last two arguments.
pub proof fn law_apply_args(
    global_config: Seq<u8>,
    mkfs: bool,
    piped: bool,
    input: Seq<u8>,
    image_config: Seq<u8>,
)
    ensures
        ({
            let args = apply_args(global_config, mkfs, piped, input, image_config);
            &&& mkfs ==> args.len() == 4 && args[1] == encode_utf8("--mkfs"@)
            &&& !mkfs ==> args.len() == 3
            &&& args[0] == encode_utf8("--service_config_path="@ + lossy_text(global_config))
            &&& piped ==> args[args.len() - 2] == encode_utf8("/dev/stdin"@)
            &&& !piped ==> args[args.len() - 2] == input
            &&& args.last() == image_config
        }),
{
}

/// The program that seals a layer gets the data, the index and the sealed file
/// last, in this order, and before them each identifier that is given, and no
/// other, behind its flag.
pub proof fn law_commit_args(
    uuid: Option<u128>,
    parent_uuid: Option<u128>,
    data: Seq<u8>,
    index: Seq<u8>,
    commit: Seq<u8>,
)
    ensures
        ({
            let args = commit_args(uuid, parent_uuid, data, index, commit);
            let n = args.len();
            &&& uuid is None && parent_uuid is None ==> n == 3
            &&& uuid is Some && parent_uuid is None ==> n == 5
            &&& uuid is None && parent_uuid is Some ==> n == 5
            &&& uuid is Some && parent_uuid is Some ==> n == 7
            &&& uuid matches Some(id) ==> args[0] == encode_utf8("--uuid"@) && args[1]
                == encode_utf8(uuid_chars(id))
            &&& parent_uuid matches Some(id) ==> args[n - 5] == encode_utf8("--parent-uuid"@)
                && args[n - 4] == encode_utf8(uuid_chars(id))
            &&& args[n - 3] == data
            &&& args[n - 2] == index
            &&& args[n - 1] == commit
        }),
{
}

/// The program that makes a layer gets the data, the index and the size in GiB,
/// in this order.
pub proof fn law_create_args(data: Seq<u8>, index: Seq<u8>, gib: u64)
    ensures
        create_args(data, index, gib).len() == 3,
        create_args(data, index, gib)[0] == data,
        create_args(data, index, gib)[1] == index,
        create_args(data, index, gib)[2] == encode_utf8(decimal(gib as nat)),
{
}

/// A layer is decompressed exactly when it begins with the four bytes of a
/// Zstandard frame, or with those of a skippable one, of which the first byte is
/// one of sixteen and the others are fixed.
pub proof fn law_zstd_magic(head: Seq<u8>)
    ensures
        is_zstd(head) <==> head.len() == 4 && ((head[0] == 0x28 && head[1] == 0xb5 && head[2]
            == 0x2f && head[3] == 0xfd) || (0x50 <= head[0] <= 0x5f && head[1] == 0x2a && head[2]
            == 0x4d && head[3] == 0x18)),
{
    if head.len() == 4 && head[0] == 0x28 && head[1] == 0xb5 && head[2] == 0x2f && head[3]
        == 0xfd {
        assert(head =~= seq![0x28u8, 0xb5u8, 0x2fu8, 0xfdu8]);
    }
}

/// The files of a conversion have five different names.
pub proof fn law_work_files_differ(a: WorkFile, b: WorkFile)
    requires
        a != b,
    ensures
        work_file_name(a) != work_file_name(b),
{
    reveal_strlit("upper.data");
    reveal_strlit("upper.index");
    reveal_strlit("image.json");
    reveal_strlit("layer.commit");
    reveal_strlit("result.txt");
    if work_file_name(a) == work_file_name(b) {
        assert(work_file_name(a)[0] == work_file_name(b)[0]);
        assert(work_file_name(a).len() == work_file_name(b).len());
    }
}

} // verus!
