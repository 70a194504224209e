//! Taking files out of archives and container images.
use crate::failure::{Failure, in_context};
use crate::fs_path::{FsPath, file_name, join_text, lossy_text};
use crate::oci::{arg_views, lemma_arg_views};
use crate::text::{
    contains, ends_with, has_part, has_suffix, joined, joined3, text_eq, trim, trimmed,
};
use vstd::prelude::*;
use vstd::utf8::*;

verus! {

/// How many levels of directories are searched for a file.
pub const SEARCH_DEPTH: u32 = 3;

/// The name of a file as text.
pub open spec fn shown_name(path: Seq<u8>) -> Seq<char> {
    match file_name(path) {
        Some(name) => lossy_text(name),
        None => Seq::empty(),
    }
}

fn shown_file_name(path: &FsPath) -> (r: String)
    ensures
        r@ == shown_name(path@),
{
    match path.file_name() {
        Some(name) => name.to_text_lossy(),
        None => {
            let r: String = String::new();
            assert(r@ =~= Seq::empty());
            r
        },
    }
}

/// The name of the virtual machine monitor in its archive, but for the other
/// programs and files around it.
pub open spec fn is_firecracker_name(name: Seq<char>) -> bool {
    &&& has_part(name, "firecracker"@)
    &&& !has_part(name, "jailer"@)
    &&& !has_part(name, "rebase-snap"@)
    &&& !has_suffix(name, ".debug"@)
    &&& !has_suffix(name, ".yaml"@)
}

/// The name of the helper for CPU templates in its archive.
pub open spec fn is_helper_name(name: Seq<char>) -> bool {
    has_part(name, "cpu-template-helper"@) && !has_suffix(name, ".debug"@)
}

/// `path` is the first of `files` whose name satisfies `wanted`.
pub open spec fn is_first(
    files: Seq<FsPath>,
    wanted: spec_fn(Seq<char>) -> bool,
    path: Seq<u8>,
) -> bool {
    exists|i: int|
        {
            &&& 0 <= i < files.len()
            &&& wanted(shown_name((#[trigger] files[i])@))
            &&& files[i]@ == path
            &&& forall|k: int| 0 <= k < i ==> !wanted(shown_name((#[trigger] files[k])@))
        }
}

/// None of `files` has a name that satisfies `wanted`.
pub open spec fn none_is(files: Seq<FsPath>, wanted: spec_fn(Seq<char>) -> bool) -> bool {
    forall|k: int| 0 <= k < files.len() ==> !wanted(shown_name((#[trigger] files[k])@))
}

/// The virtual machine monitor among the files of its archive: the one directly
/// in `dir`, where it is a file, else the first of `files` with such a name.
pub fn find_firecracker_binary(dir: &FsPath, direct_is_file: bool, files: &Vec<FsPath>) -> (r:
    Result<FsPath, Failure>)
    ensures
        match r {
            Ok(path) => if direct_is_file {
                path@ == join_text(dir@, "firecracker"@)
            } else {
                is_first(files@, |name: Seq<char>| is_firecracker_name(name), path@)
            },
            Err(failure) => {
                &&& !direct_is_file
                &&& none_is(files@, |name: Seq<char>| is_firecracker_name(name))
                &&& failure@ == "firecracker binary not found in "@ + lossy_text(dir@)
            },
        },
{
    if direct_is_file {
        return Ok(dir.join_text("firecracker"));
    }
    let ghost wanted = |name: Seq<char>| is_firecracker_name(name);
    let mut i: usize = 0;
    while i < files.len()
        invariant
            i <= files@.len(),
            !direct_is_file,
            wanted == (|name: Seq<char>| is_firecracker_name(name)),
            forall|k: int| 0 <= k < i ==> !wanted(shown_name((#[trigger] files@[k])@)),
        decreases files@.len() - i,
    {
        let name: String = shown_file_name(&files[i]);
        proof {
            reveal_strlit("firecracker");
            reveal_strlit("jailer");
            reveal_strlit("rebase-snap");
        }
        let found: bool = contains(name.as_str(), "firecracker") && !contains(
            name.as_str(),
            "jailer",
        ) && !contains(name.as_str(), "rebase-snap") && !ends_with(name.as_str(), ".debug")
            && !ends_with(name.as_str(), ".yaml");
        assert(found == wanted(shown_name(files@[i as int]@)));
        if found {
            let path: FsPath = files[i].clone();
            assert(is_first(files@, wanted, path@));
            return Ok(path);
        }
        i = i + 1;
    }
    Err(
        Failure::new(
            joined("firecracker binary not found in ", dir.to_text_lossy().as_str()),
        ),
    )
}

/// The helper for CPU templates among the files of its archive, if it is there.
pub fn find_cpu_template_helper(files: &Vec<FsPath>) -> (r: Option<FsPath>)
    ensures
        match r {
            Some(path) => is_first(files@, |name: Seq<char>| is_helper_name(name), path@),
            None => none_is(files@, |name: Seq<char>| is_helper_name(name)),
        },
{
    let ghost wanted = |name: Seq<char>| is_helper_name(name);
    let mut i: usize = 0;
    while i < files.len()
        invariant
            i <= files@.len(),
            wanted == (|name: Seq<char>| is_helper_name(name)),
            forall|k: int| 0 <= k < i ==> !wanted(shown_name((#[trigger] files@[k])@)),
        decreases files@.len() - i,
    {
        let name: String = shown_file_name(&files[i]);
        let found: bool = contains(name.as_str(), "cpu-template-helper") && !ends_with(
            name.as_str(),
            ".debug",
        );
        assert(found == wanted(shown_name(files@[i as int]@)));
        if found {
            return Some(files[i].clone());
        }
        i = i + 1;
    }
    None
}

/// The failure of a program: its name, its first argument and what it wrote to
/// its standard error.
pub open spec fn command_failure_text(
    program: Seq<u8>,
    args: Seq<FsPath>,
    stderr: Seq<u8>,
) -> Seq<char> {
    lossy_text(program) + " "@ + (if args.len() > 0 {
        lossy_text(args[0]@)
    } else {
        Seq::empty()
    }) + " failed: "@ + trimmed(lossy_text(stderr))
}

/// What the end of a program means: nothing where it succeeded.
pub fn command_outcome(program: &FsPath, args: &Vec<FsPath>, success: bool, stderr: &FsPath) -> (r:
    Result<(), Failure>)
    ensures
        r is Ok <==> success,
        r matches Err(failure) ==> failure@ == command_failure_text(program@, args@, stderr@),
{
    if success {
        return Ok(());
    }
    let first: String = if args.len() > 0 {
        args[0].to_text_lossy()
    } else {
        String::new()
    };
    assert(args@.len() == 0 ==> first@ =~= Seq::empty());
    let shown: String = trim(stderr.to_text_lossy().as_str());
    let head: String = joined3(program.to_text_lossy().as_str(), " ", first.as_str());
    Err(Failure::new(joined3(head.as_str(), " failed: ", shown.as_str())))
}

/// A program and its arguments.
#[derive(Debug)]
pub struct ProgramCall {
    pub program: FsPath,
    pub args: Vec<FsPath>,
}

/// The directory into which the container image is copied.
pub open spec fn layout_dir(temp: Seq<u8>) -> Seq<u8> {
    join_text(temp, "oci"@)
}

/// The directory into which the container image is unpacked.
pub open spec fn bundle_dir(temp: Seq<u8>) -> Seq<u8> {
    join_text(temp, "bundle"@)
}

/// The root of the unpacked container image.
pub open spec fn rootfs_dir(temp: Seq<u8>) -> Seq<u8> {
    join_text(bundle_dir(temp), "rootfs"@)
}

/// The arguments that copy `image` for this platform into a local layout.
pub open spec fn copy_args(image: Seq<char>, temp: Seq<u8>) -> Seq<Seq<u8>> {
    seq![
        encode_utf8("image"@),
        encode_utf8("copy"@),
        encode_utf8("--platform"@),
        encode_utf8("local"@),
        encode_utf8(image),
        encode_utf8("ocidir://"@ + lossy_text(layout_dir(temp)) + ":latest"@),
    ]
}

/// The arguments that unpack the local layout.
pub open spec fn unpack_args(temp: Seq<u8>) -> Seq<Seq<u8>> {
    seq![
        encode_utf8("unpack"@),
        encode_utf8("--rootless"@),
        encode_utf8("--image"@),
        encode_utf8(lossy_text(layout_dir(temp)) + ":latest"@),
        encode_utf8(lossy_text(bundle_dir(temp))),
    ]
}

/// One file is taken out of a container image: `filename` of `image`, to
/// `destination`.
#[derive(Debug)]
pub struct ImageExtraction {
    pub regctl: FsPath,
    pub image: String,
    pub filename: String,
    pub destination: FsPath,
}

/// The steps of an extraction, in order.
#[derive(Debug, Clone, Copy, PartialEq, Eq, Structural)]
pub enum ExtractStep {
    /// The registry client has to be there.
    CheckRegctl,
    /// The unpacker has to be on the search path.
    FindUmoci,
    MakeTempDir,
    CopyImage,
    UnpackImage,
    /// The file is looked for.
    Locate,
    /// The file is moved to its destination, by a copy where it cannot be
    /// renamed, and gets the permissions `DRIVE_MODE`.
    Install,
    Done,
}

/// The step after `step`.
pub open spec fn extract_following(step: ExtractStep) -> ExtractStep {
    match step {
        ExtractStep::CheckRegctl => ExtractStep::FindUmoci,
        ExtractStep::FindUmoci => ExtractStep::MakeTempDir,
        ExtractStep::MakeTempDir => ExtractStep::CopyImage,
        ExtractStep::CopyImage => ExtractStep::UnpackImage,
        ExtractStep::UnpackImage => ExtractStep::Locate,
        ExtractStep::Locate => ExtractStep::Install,
        ExtractStep::Install => ExtractStep::Done,
        ExtractStep::Done => ExtractStep::Done,
    }
}

impl ImageExtraction {
    /// What a failure in `step` says, where `cause` is the failure itself.
    pub open spec fn failure_text(&self, step: ExtractStep, cause: Seq<char>) -> Seq<char> {
        match step {
            ExtractStep::CheckRegctl => "regctl is required to download container images: "@
                + lossy_text(self.regctl@),
            ExtractStep::FindUmoci => in_context(
                "umoci is required to unpack container images"@,
                cause,
            ),
            ExtractStep::MakeTempDir => in_context(
                "failed to create temporary directory"@,
                cause,
            ),
            _ => cause,
        }
    }

    /// The step after `step`, or why the extraction ends: `result` is the
    /// failure of the step where it had one.
    pub fn after(&self, step: ExtractStep, result: Result<(), Failure>) -> (r: Result<
        ExtractStep,
        Failure,
    >)
        ensures
            match result {
                Ok(()) => r matches Ok(next) && next == extract_following(step),
                Err(cause) => r matches Err(failure) && failure@ == self.failure_text(
                    step,
                    cause@,
                ),
            },
            r is Ok <==> result is Ok,
            step is CheckRegctl && result is Ok ==> r->Ok_0 is FindUmoci,
            step is FindUmoci && result is Ok ==> r->Ok_0 is MakeTempDir,
            step is MakeTempDir && result is Ok ==> r->Ok_0 is CopyImage,
            step is CopyImage && result is Ok ==> r->Ok_0 is UnpackImage,
            step is UnpackImage && result is Ok ==> r->Ok_0 is Locate,
            step is Locate && result is Ok ==> r->Ok_0 is Install,
            step is Install && result is Ok ==> r->Ok_0 is Done,
    {
        match result {
            Ok(()) => Ok(
                match step {
                    ExtractStep::CheckRegctl => ExtractStep::FindUmoci,
                    ExtractStep::FindUmoci => ExtractStep::MakeTempDir,
                    ExtractStep::MakeTempDir => ExtractStep::CopyImage,
                    ExtractStep::CopyImage => ExtractStep::UnpackImage,
                    ExtractStep::UnpackImage => ExtractStep::Locate,
                    ExtractStep::Locate => ExtractStep::Install,
                    ExtractStep::Install => ExtractStep::Done,
                    ExtractStep::Done => ExtractStep::Done,
                },
            ),
            Err(cause) => Err(
                match step {
                    ExtractStep::CheckRegctl => Failure::new(
                        joined(
                            "regctl is required to download container images: ",
                            self.regctl.to_text_lossy().as_str(),
                        ),
                    ),
                    ExtractStep::FindUmoci => cause.context(
                        "umoci is required to unpack container images",
                    ),
                    ExtractStep::MakeTempDir => cause.context(
                        "failed to create temporary directory",
                    ),
                    _ => cause,
                },
            ),
        }
    }

    /// The call that copies the image into a layout in `temp`.
    pub fn copy_call(&self, temp: &FsPath) -> (r: ProgramCall)
        ensures
            r.program@ == self.regctl@,
            arg_views(r.args@) == copy_args(self.image@, temp@),
            r.args@.len() == 6,
            r.args@[0]@ == encode_utf8("image"@),
            r.args@[1]@ == encode_utf8("copy"@),
            r.args@[2]@ == encode_utf8("--platform"@),
            r.args@[3]@ == encode_utf8("local"@),
            r.args@[4]@ == encode_utf8(self.image@),
            r.args@[5]@ == encode_utf8(
                "ocidir://"@ + lossy_text(join_text(temp@, "oci"@)) + ":latest"@,
            ),
    {
        let target: String = joined3(
            "ocidir://",
            temp.join_text("oci").to_text_lossy().as_str(),
            ":latest",
        );
        let mut args: Vec<FsPath> = Vec::new();
        args.push(FsPath::from_text("image"));
        args.push(FsPath::from_text("copy"));
        args.push(FsPath::from_text("--platform"));
        args.push(FsPath::from_text("local"));
        args.push(FsPath::from_text(self.image.as_str()));
        args.push(FsPath::from_text(target.as_str()));
        assert(arg_views(args@) =~= copy_args(self.image@, temp@));
        proof {
            lemma_arg_views(args@);
        }
        ProgramCall { program: self.regctl.clone(), args }
    }

    /// The call that unpacks the layout in `temp`.
    pub fn unpack_call(&self, temp: &FsPath) -> (r: ProgramCall)
        ensures
            r.program@ == encode_utf8("umoci"@),
            arg_views(r.args@) == unpack_args(temp@),
            r.args@.len() == 5,
            r.args@[0]@ == encode_utf8("unpack"@),
            r.args@[1]@ == encode_utf8("--rootless"@),
            r.args@[2]@ == encode_utf8("--image"@),
            r.args@[3]@ == encode_utf8(lossy_text(join_text(temp@, "oci"@)) + ":latest"@),
            r.args@[4]@ == encode_utf8(lossy_text(join_text(temp@, "bundle"@))),
    {
        let image: String = joined(temp.join_text("oci").to_text_lossy().as_str(), ":latest");
        let mut args: Vec<FsPath> = Vec::new();
        args.push(FsPath::from_text("unpack"));
        args.push(FsPath::from_text("--rootless"));
        args.push(FsPath::from_text("--image"));
        args.push(FsPath::from_text(image.as_str()));
        args.push(FsPath::from_text(temp.join_text("bundle").to_text_lossy().as_str()));
        assert(arg_views(args@) =~= unpack_args(temp@));
        proof {
            lemma_arg_views(args@);
        }
        ProgramCall { program: FsPath::from_text("umoci"), args }
    }

    /// The directory that is searched for the file.
    pub fn search_dir(&self, temp: &FsPath) -> (r: FsPath)
        ensures
            r@ == rootfs_dir(temp@),
            r@ == join_text(join_text(temp@, "bundle"@), "rootfs"@),
    {
        temp.join_text("bundle").join_text("rootfs")
    }

    /// Where the file is expected.
    pub fn expected_path(&self, temp: &FsPath) -> (r: FsPath)
        ensures
            r@ == join_text(rootfs_dir(temp@), self.filename@),
            r@ == join_text(join_text(join_text(temp@, "bundle"@), "rootfs"@), self.filename@),
    {
        self.search_dir(temp).join_text(self.filename.as_str())
    }

    /// The file in the unpacked image: where it is expected, if it is a file
    /// there, else the first of `files` with its name.
    pub fn locate(&self, temp: &FsPath, direct_is_file: bool, files: &Vec<FsPath>) -> (r: Result<
        FsPath,
        Failure,
    >)
        ensures
            match r {
                Ok(path) => if direct_is_file {
                    path@ == join_text(rootfs_dir(temp@), self.filename@)
                } else {
                    is_first(files@, |name: Seq<char>| name == self.filename@, path@)
                },
                Err(failure) => {
                    &&& !direct_is_file
                    &&& none_is(files@, |name: Seq<char>| name == self.filename@)
                    &&& failure@ == "failed to find /"@ + self.filename@ + " in image "@
                        + self.image@
                },
            },
    {
        if direct_is_file {
            return Ok(self.expected_path(temp));
        }
        let ghost wanted = |name: Seq<char>| name == self.filename@;
        let mut i: usize = 0;
        while i < files.len()
            invariant
                i <= files@.len(),
                !direct_is_file,
                wanted == (|name: Seq<char>| name == self.filename@),
                forall|k: int| 0 <= k < i ==> !wanted(shown_name((#[trigger] files@[k])@)),
            decreases files@.len() - i,
        {
            let name: String = shown_file_name(&files[i]);
            let found: bool = text_eq(name.as_str(), self.filename.as_str());
            assert(found == wanted(shown_name(files@[i as int]@)));
            if found {
                let path: FsPath = files[i].clone();
                assert(is_first(files@, wanted, path@));
                return Ok(path);
            }
            i = i + 1;
        }
        let head: String = joined3("failed to find /", self.filename.as_str(), " in image ");
        Err(Failure::new(joined(head.as_str(), self.image.as_str())))
    }
}

/// What the steps of an extraction are: the registry client and the unpacker are
/// there before anything is copied, the image is copied before it is unpacked, and
/// only then is the file looked for and moved to its destination.
pub proof fn law_extraction_order(step: ExtractStep)
    ensures
        extract_following(ExtractStep::CheckRegctl) is FindUmoci,
        extract_following(ExtractStep::FindUmoci) is MakeTempDir,
        extract_following(ExtractStep::MakeTempDir) is CopyImage,
        extract_following(ExtractStep::CopyImage) is UnpackImage,
        extract_following(ExtractStep::UnpackImage) is Locate,
        extract_following(ExtractStep::Locate) is Install,
        extract_following(ExtractStep::Install) is Done,
{
}

/// The programs are told apart from what lies beside them in their archive: the
/// monitor by its name, without the jailer, the snapshot tool, debug symbols and
/// descriptions; the helper by its name, without debug symbols.
pub proof fn law_program_names(name: Seq<char>, path: Seq<u8>)
    ensures
        is_firecracker_name(name) <==> has_part(name, "firecracker"@) && !has_part(
            name,
            "jailer"@,
        ) && !has_part(name, "rebase-snap"@) && !has_suffix(name, ".debug"@) && !has_suffix(
            name,
            ".yaml"@,
        ),
        is_helper_name(name) <==> has_part(name, "cpu-template-helper"@) && !has_suffix(
            name,
            ".debug"@,
        ),
        file_name(path) matches Some(last) ==> shown_name(path) == lossy_text(last),
        file_name(path) is None ==> shown_name(path).len() == 0,
{
}

/// What is found among files is one of them, has a wanted name, and none before it
/// has; and where nothing is found, none has.
pub proof fn law_first_file(files: Seq<FsPath>, wanted: spec_fn(Seq<char>) -> bool, path: Seq<u8>)
    ensures
        is_first(files, wanted, path) ==> exists|i: int|
            0 <= i < files.len() && (#[trigger] files[i])@ == path && wanted(shown_name(path))
                && forall|k: int|
                0 <= k < i ==> !wanted(shown_name((#[trigger] files[k])@)),
        none_is(files, wanted) <==> forall|k: int|
            0 <= k < files.len() ==> !wanted(shown_name((#[trigger] files[k])@)),
{
}

/// A program that fails is told with its name, its first argument and what it
/// wrote to its standard error, without the white space around that.
pub proof fn law_program_failures(program: Seq<u8>, args: Seq<FsPath>, stderr: Seq<u8>)
    ensures
        args.len() > 0 ==> command_failure_text(program, args, stderr) == lossy_text(program)
            + " "@ + lossy_text(args[0]@) + " failed: "@ + trimmed(lossy_text(stderr)),
{
}

} // verus!
