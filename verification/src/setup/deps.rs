//! Which dependencies are set up, and how.
use crate::config::resolve::{dependency_path, regctl_path, tools_version_rejection};
use crate::config::types::{AppConfig, VirtualizationMode};
use crate::failure::{Failure, in_context};
use crate::fs_path::{FsPath, join_text, lossy_text, parent};
use crate::manifest::SetupDependencyManifest;
use crate::text::{has_token, joined, joined3, occurs_at, replace, replaced, text_eq, token_at};
use crate::text_laws::{law_occurs_at, law_replaced, law_replaced_absent};
use vstd::prelude::*;
use vstd::utf8::*;

verus! {

/// A placeholder in an address: the key in braces.
pub open spec fn placeholder(key: Seq<char>) -> Seq<char> {
    "{"@ + key + "}"@
}

/// `template` with the placeholder of each key replaced by its value, one after
/// the other.
pub open spec fn url_resolved(template: Seq<char>, vars: Seq<(&str, &str)>) -> Seq<char>
    decreases vars.len(),
{
    if vars.len() == 0 {
        template
    } else {
        replaced(
            url_resolved(template, vars.drop_last()),
            placeholder(vars.last().0@),
            vars.last().1@,
        )
    }
}

/// `template` with the placeholder of each key replaced by its value.
pub fn resolve_url(template: &str, vars: &Vec<(&str, &str)>) -> (r: String)
    ensures
        r@ == url_resolved(template@, vars@),
{
    let mut result: String = template.to_owned();
    let mut i: usize = 0;
    while i < vars.len()
        invariant
            i <= vars@.len(),
            result@ == url_resolved(template@, vars@.take(i as int)),
        decreases vars@.len() - i,
    {
        assert(vars@.take(i + 1).drop_last() =~= vars@.take(i as int));
        let key: String = joined3("{", vars[i].0, "}");
        proof {
            reveal_strlit("{");
            reveal_strlit("}");
        }
        result = replace(result.as_str(), key.as_str(), vars[i].1);
        i = i + 1;
    }
    assert(vars@.take(vars@.len() as int) =~= vars@);
    result
}

/// An address for one version and architecture.
pub open spec fn address(template: Seq<char>, version: Seq<char>, arch: Seq<char>) -> Seq<char> {
    replaced(
        replaced(template, placeholder("version"@), version),
        placeholder("arch"@),
        arch,
    )
}

fn versioned_address(template: &str, version: &str, arch: &str) -> (r: String)
    ensures
        r@ == address(template@, version@, arch@),
{
    let mut vars: Vec<(&str, &str)> = Vec::new();
    vars.push(("version", version));
    vars.push(("arch", arch));
    proof {
        reveal_with_fuel(url_resolved, 3);
        assert(vars@.drop_last() =~= seq![("version", version)]);
        assert(vars@.drop_last().drop_last() =~= Seq::empty());
    }
    resolve_url(template, &vars)
}

/// The architecture of the host, as it is named in addresses.
pub fn detect_arch(arch: &str) -> (r: Result<String, Failure>)
    ensures
        arch@ == "x86_64"@ || arch@ == "aarch64"@ ==> (r matches Ok(name) && name@ == arch@),
        arch@ != "x86_64"@ && arch@ != "aarch64"@ ==> (r matches Err(failure) && failure@
            == "unsupported architecture: "@ + arch@),
{
    if text_eq(arch, "x86_64") || text_eq(arch, "aarch64") {
        Ok(arch.to_owned())
    } else {
        Err(Failure::new(joined("unsupported architecture: ", arch)))
    }
}

/// Whether the host can virtualize as configured.
pub fn check_virtualization(mode: VirtualizationMode, arch: &str) -> (r: Result<(), Failure>)
    ensures
        r is Ok <==> mode == VirtualizationMode::Kvm || arch@ == "x86_64"@,
        r matches Err(failure) ==> failure@
            == "PVM virtualization mode is only supported on x86_64 hosts"@,
{
    match mode {
        VirtualizationMode::Kvm => Ok(()),
        VirtualizationMode::Pvm => if text_eq(arch, "x86_64") {
            Ok(())
        } else {
            Err(
                Failure::new(
                    "PVM virtualization mode is only supported on x86_64 hosts".to_owned(),
                ),
            )
        },
    }
}

/// What the file system says of a file.
#[derive(Debug, Clone, Copy, PartialEq, Eq, Structural)]
pub struct FileFacts {
    pub is_file: bool,
    pub len: u64,
    /// The permission bits.
    pub mode: u32,
}

/// A file with something in it.
pub open spec fn usable(facts: Option<FileFacts>) -> bool {
    facts matches Some(facts) && facts.is_file && facts.len > 0
}

/// Whether there is a file with something in it; `facts` is what the file
/// system says of the path, if it says anything.
pub fn file_exists_nonempty(facts: Option<FileFacts>) -> (r: bool)
    ensures
        r == usable(facts),
        r <==> facts is Some && facts->0.is_file && facts->0.len > 0,
{
    match facts {
        Some(facts) => facts.is_file && facts.len > 0,
        None => false,
    }
}

/// The bits of which one makes a file executable.
pub const EXECUTE_BITS: u32 = 0o111;

/// Why a configured file cannot be used, if it cannot. `facts` is what the file
/// system says of it, or its error; `opened` is the error where it cannot be
/// opened for reading.
pub open spec fn explicit_rejection(
    key: Seq<char>,
    path: Seq<u8>,
    executable: bool,
    facts: Result<FileFacts, String>,
    opened: Result<(), String>,
) -> Option<Seq<char>> {
    match facts {
        Err(cause) => Some(
            in_context("validate "@ + key + " "@ + lossy_text(path), cause@),
        ),
        Ok(facts) => if !facts.is_file {
            Some(key + " is not a regular file: "@ + lossy_text(path))
        } else if facts.len == 0 {
            Some(key + " is an empty file: "@ + lossy_text(path))
        } else if opened is Err {
            Some(
                in_context(
                    key + " is not readable: "@ + lossy_text(path),
                    opened->Err_0@,
                ),
            )
        } else if executable && facts.mode & EXECUTE_BITS == 0 {
            Some(key + " is not executable: "@ + lossy_text(path))
        } else {
            None
        },
    }
}

/// Whether a configured file can be used.
pub fn validate_explicit_file(
    config_key: &str,
    path: &FsPath,
    executable: bool,
    facts: Result<FileFacts, String>,
    opened: Result<(), String>,
) -> (r: Result<(), Failure>)
    ensures
        r is Ok <==> explicit_rejection(config_key@, path@, executable, facts, opened) is None,
        r is Ok <==> facts is Ok && facts->Ok_0.is_file && facts->Ok_0.len > 0 && opened is Ok && (
        executable ==> facts->Ok_0.mode & 0o111 != 0),
        r matches Err(failure) ==> explicit_rejection(
            config_key@,
            path@,
            executable,
            facts,
            opened,
        ) == Some(failure@),
{
    let shown: String = path.to_text_lossy();
    match facts {
        Err(cause) => {
            let head: String = joined("validate ", config_key);
            let context: String = joined3(head.as_str(), " ", shown.as_str());
            Err(Failure::new(cause).context(context.as_str()))
        },
        Ok(facts) => {
            if !facts.is_file {
                return Err(
                    Failure::new(joined3(config_key, " is not a regular file: ", shown.as_str())),
                );
            }
            if facts.len == 0 {
                return Err(
                    Failure::new(joined3(config_key, " is an empty file: ", shown.as_str())),
                );
            }
            if let Err(cause) = opened {
                let context: String = joined3(
                    config_key,
                    " is not readable: ",
                    shown.as_str(),
                );
                return Err(Failure::new(cause).context(context.as_str()));
            }
            if executable && facts.mode & EXECUTE_BITS == 0 {
                return Err(
                    Failure::new(joined3(config_key, " is not executable: ", shown.as_str())),
                );
            }
            Ok(())
        },
    }
}

/// What is done to have the virtual machine monitor.
#[derive(Debug)]
pub enum FirecrackerPlan {
    /// The configured program is checked.
    Validate { path: FsPath },
    /// It is there.
    Present,
    /// The archive is downloaded to `archive`, `binary` and the optional
    /// `helper` are taken out of it, and the archive is removed.
    Download { url: String, archive: FsPath, binary: FsPath, helper: FsPath },
}

/// The directory of a path; the path itself where it has none.
pub open spec fn dir_of(path: Seq<u8>) -> Seq<u8> {
    match parent(path) {
        Some(dir) => dir,
        None => path,
    }
}

/// What is done to have the virtual machine monitor, where `facts` is what the
/// file system says of the program that a former setup left.
pub fn plan_firecracker(
    config: &AppConfig,
    manifest: &SetupDependencyManifest,
    arch: &str,
    facts: Option<FileFacts>,
) -> (r: Result<FirecrackerPlan, Failure>)
    ensures
        ({
            let version = config.firecracker_version(*manifest);
            let binary_path = dependency_path(
                config.deps_path@,
                "firecracker"@,
                version,
                "firecracker"@,
            );
            let download = manifest.firecracker.spec_for_mode(config.virtualization_mode);
            match config.firecracker.binary_path {
                Some(explicit) => r matches Ok(FirecrackerPlan::Validate { path }) && path@
                    == explicit@,
                None => if usable(facts) {
                    r matches Ok(FirecrackerPlan::Present)
                } else if parent(binary_path) is None {
                    r matches Err(failure) && failure@
                        == "resolved firecracker binary path has no parent"@
                } else {
                    &&& r matches Ok(FirecrackerPlan::Download { url, archive, binary, helper })
                    &&& binary@ == binary_path
                    &&& url@ == address(
                        match config.firecracker.url {
                            Some(url) => url@,
                            None => download.url@,
                        },
                        version,
                        arch@,
                    )
                    &&& archive@ == join_text(
                        dir_of(binary_path),
                        "firecracker-"@ + version + "-"@ + arch@ + ".tgz"@,
                    )
                    &&& helper@ == join_text(dir_of(binary_path), "cpu-template-helper"@)
                },
            }
        }),
{
    if let Some(path) = &config.firecracker.binary_path {
        return Ok(FirecrackerPlan::Validate { path: path.clone() });
    }
    let binary: FsPath = config.resolved_firecracker_binary_path(manifest);
    if file_exists_nonempty(facts) {
        return Ok(FirecrackerPlan::Present);
    }
    let download = manifest.firecracker.for_mode(config.virtualization_mode);
    let version: &str = match &config.firecracker.version {
        Some(version) => version.as_str(),
        None => download.version.as_str(),
    };
    let template: &str = match &config.firecracker.url {
        Some(url) => url.as_str(),
        None => download.url.as_str(),
    };
    match binary.parent() {
        None => Err(Failure::new("resolved firecracker binary path has no parent".to_owned())),
        Some(dir) => {
            let head: String = joined3("firecracker-", version, "-");
            let name: String = joined3(head.as_str(), arch, ".tgz");
            let archive: FsPath = dir.join_text(name.as_str());
            let helper: FsPath = dir.join_text("cpu-template-helper");
            let url: String = versioned_address(template, version, arch);
            Ok(FirecrackerPlan::Download { url, archive, binary, helper })
        },
    }
}

/// What is done to have the guest kernel.
#[derive(Debug)]
pub enum KernelPlan {
    /// The configured image is checked.
    Validate { path: FsPath },
    /// It is there.
    Present,
    Download { url: String, path: FsPath },
}

/// What is done to have the guest kernel, where `facts` is what the file system
/// says of the image that a former setup left.
pub fn plan_kernel(
    config: &AppConfig,
    manifest: &SetupDependencyManifest,
    arch: &str,
    facts: Option<FileFacts>,
) -> (r: KernelPlan)
    ensures
        ({
            let version = config.kernel_version(*manifest);
            let download = manifest.kernel.spec_for_mode(config.virtualization_mode);
            match config.kernel.image_path {
                Some(explicit) => r matches KernelPlan::Validate { path } && path@ == explicit@,
                None => if usable(facts) {
                    r == KernelPlan::Present
                } else {
                    &&& r matches KernelPlan::Download { url, path }
                    &&& path@ == dependency_path(
                        config.deps_path@,
                        "kernel"@,
                        version,
                        "vmlinux.bin"@,
                    )
                    &&& url@ == address(
                        match config.kernel.url {
                            Some(url) => url@,
                            None => download.url@,
                        },
                        version,
                        arch@,
                    )
                },
            }
        }),
{
    if let Some(path) = &config.kernel.image_path {
        return KernelPlan::Validate { path: path.clone() };
    }
    let path: FsPath = config.resolved_kernel_image_path(manifest);
    if file_exists_nonempty(facts) {
        return KernelPlan::Present;
    }
    let download = manifest.kernel.for_mode(config.virtualization_mode);
    let version: &str = match &config.kernel.version {
        Some(version) => version.as_str(),
        None => download.version.as_str(),
    };
    let template: &str = match &config.kernel.url {
        Some(url) => url.as_str(),
        None => download.url.as_str(),
    };
    KernelPlan::Download { url: versioned_address(template, version, arch), path }
}

/// What is done to have the tools drive.
#[derive(Debug)]
pub enum ToolsPlan {
    /// The configured drive is checked and installed.
    Install { source: FsPath, destination: FsPath, version: String },
    /// It is there.
    Present,
    /// The file `tools.ext4` of the container image is extracted.
    Extract { image: String, regctl: FsPath, dir: FsPath, destination: FsPath },
}

/// Whether a source of the tools drive is configured without its version.
pub open spec fn tools_version_missing(config: AppConfig) -> bool {
    config.tools.version is None && (config.tools.drive_path is Some || config.tools.url is Some)
}

/// The text of the failure for a tools drive without its version.
pub open spec fn tools_version_missing_text() -> Seq<char> {
    "tools.version is required when tools.drive_path or tools.url is configured"@
}

/// What is done to have the tools drive, where `facts` is what the file system
/// says of the drive that a former setup left. A drive from a configured source
/// needs a configured version, even where such a drive is there already.
pub fn plan_tools(
    config: &AppConfig,
    deps_path: &FsPath,
    manifest: &SetupDependencyManifest,
    facts: Option<FileFacts>,
) -> (r: Result<ToolsPlan, Failure>)
    ensures
        ({
            let version = config.tools_version(*manifest);
            let drive = dependency_path(config.deps_path@, "tools"@, version, "tools.ext4"@);
            if tools_version_missing(*config) {
                r matches Err(failure) && failure@ == tools_version_missing_text()
            } else if tools_version_rejection(version) is Some {
                r matches Err(failure) && Some(failure@) == tools_version_rejection(version)
            } else if config.tools.drive_path is Some {
                &&& r matches Ok(ToolsPlan::Install { source, destination, version: v })
                &&& source@ == config.tools.drive_path->0@
                &&& destination@ == drive
                &&& v@ == version
            } else if usable(facts) {
                r matches Ok(ToolsPlan::Present)
            } else if parent(drive) is None {
                r matches Err(failure) && failure@ == "resolved tools drive path has no parent"@
            } else {
                &&& r matches Ok(ToolsPlan::Extract { image, regctl, dir, destination })
                &&& image@ == replaced(
                    match config.tools.url {
                        Some(url) => url@,
                        None => manifest.tools.url@,
                    },
                    placeholder("version"@),
                    version,
                )
                &&& regctl@ == dependency_path(
                    deps_path@,
                    "regctl"@,
                    manifest.regclient.version@,
                    "regctl"@,
                )
                &&& Some(dir@) == parent(drive)
                &&& destination@ == drive
            }
        }),
{
    if config.tools.version.is_none() && (config.tools.drive_path.is_some()
        || config.tools.url.is_some()) {
        return Err(
            Failure::new(
                "tools.version is required when tools.drive_path or tools.url is configured".to_owned(),
            ),
        );
    }
    let version: &str = config.resolved_tools_version(manifest);
    let destination: FsPath = match config.resolved_tools_drive_path(manifest) {
        Ok(path) => path,
        Err(failure) => {
            return Err(failure);
        },
    };
    if let Some(source) = &config.tools.drive_path {
        return Ok(
            ToolsPlan::Install {
                source: source.clone(),
                destination,
                version: version.to_owned(),
            },
        );
    }
    if file_exists_nonempty(facts) {
        return Ok(ToolsPlan::Present);
    }
    let template: &str = match &config.tools.url {
        Some(url) => url.as_str(),
        None => manifest.tools.url.as_str(),
    };
    match destination.parent() {
        None => Err(Failure::new("resolved tools drive path has no parent".to_owned())),
        Some(dir) => {
            let mut vars: Vec<(&str, &str)> = Vec::new();
            vars.push(("version", version));
            proof {
                reveal_with_fuel(url_resolved, 2);
                assert(vars@.drop_last() =~= Seq::empty());
            }
            let image: String = resolve_url(template, &vars);
            Ok(ToolsPlan::Extract { image, regctl: regctl_path(deps_path, manifest), dir, destination })
        },
    }
}

/// What identifies the content of a file.
#[derive(Debug)]
pub struct FileDigest {
    pub digest: String,
    pub size: u64,
}

/// The same content.
pub open spec fn same_digest(a: FileDigest, b: FileDigest) -> bool {
    a.digest@ == b.digest@ && a.size == b.size
}

/// Whether the tools drive at `destination` is the one from `source`: a version
/// never stands for two contents.
pub fn verify_installed_tools_drive(
    source: &FsPath,
    destination: &FsPath,
    version: &str,
    source_digest: &FileDigest,
    installed_digest: &FileDigest,
) -> (r: Result<(), Failure>)
    ensures
        r is Ok <==> same_digest(*source_digest, *installed_digest),
        r is Ok <==> source_digest.digest@ == installed_digest.digest@ && source_digest.size
            == installed_digest.size,
        r matches Err(failure) ==> failure@ == "tools drive version '"@ + version@ + "' from "@
            + lossy_text(source@) + " conflicts with the installed file at "@ + lossy_text(
            destination@,
        ) + "; publish a new version"@,
{
    if source_digest.size == installed_digest.size && text_eq(
        source_digest.digest.as_str(),
        installed_digest.digest.as_str(),
    ) {
        return Ok(());
    }
    let head: String = joined3("tools drive version '", version, "' from ");
    let from: String = joined3(
        head.as_str(),
        source.to_text_lossy().as_str(),
        " conflicts with the installed file at ",
    );
    Err(
        Failure::new(
            joined3(
                from.as_str(),
                destination.to_text_lossy().as_str(),
                "; publish a new version",
            ),
        ),
    )
}

/// Where the installation of a local tools drive stands.
#[derive(Debug, Clone, Copy, PartialEq, Eq, Structural)]
pub enum ToolsInstall {
    /// Something may be at the destination already.
    Look,
    /// A copy with the final permissions is being moved to the destination,
    /// where nothing may be.
    Persist,
    /// The drive at the destination is compared with the source.
    Verify,
    /// The drive is installed.
    Done,
}

/// The permissions of a tools drive.
pub const DRIVE_MODE: u32 = 0o644;

/// The step after `step`, where `occupied` says whether something was at the
/// destination when the step was done.
pub open spec fn install_following(step: ToolsInstall, occupied: bool) -> ToolsInstall {
    match step {
        ToolsInstall::Look => if occupied {
            ToolsInstall::Verify
        } else {
            ToolsInstall::Persist
        },
        ToolsInstall::Persist => if occupied {
            ToolsInstall::Verify
        } else {
            ToolsInstall::Done
        },
        _ => ToolsInstall::Done,
    }
}

/// The step after `step`, where `occupied` says whether something was at the
/// destination when the step was done.
pub fn tools_install_next(step: ToolsInstall, occupied: bool) -> (r: ToolsInstall)
    ensures
        r == install_following(step, occupied),
        step is Look && occupied ==> r is Verify,
        step is Look && !occupied ==> r is Persist,
        step is Persist && occupied ==> r is Verify,
        step is Persist && !occupied ==> r is Done,
        step is Verify || step is Done ==> r is Done,
{
    match step {
        ToolsInstall::Look => if occupied {
            ToolsInstall::Verify
        } else {
            ToolsInstall::Persist
        },
        ToolsInstall::Persist => if occupied {
            ToolsInstall::Verify
        } else {
            ToolsInstall::Done
        },
        _ => ToolsInstall::Done,
    }
}

/// A drive is never written over: whatever is found at the destination, before
/// the copy or when the copy is moved there, is only compared with the source.
pub proof fn law_installed_drive_is_kept(step: ToolsInstall, occupied: bool)
    ensures
        occupied && (step == ToolsInstall::Look || step == ToolsInstall::Persist)
            ==> install_following(step, occupied) == ToolsInstall::Verify,
        install_following(step, occupied) == ToolsInstall::Persist ==> !occupied,
{
}

/// A copy is moved to the destination exactly where nothing was found there, and
/// the installation ends only when the copy is there or what was found was
/// compared with the source.
pub proof fn law_drive_is_copied_or_compared(step: ToolsInstall, occupied: bool)
    ensures
        install_following(ToolsInstall::Look, false) is Persist,
        install_following(ToolsInstall::Persist, false) is Done,
        install_following(ToolsInstall::Verify, occupied) is Done,
        install_following(step, occupied) is Done ==> step is Verify || step is Done || (step
            is Persist && !occupied),
{
}

proof fn lemma_no_brace(head: Seq<char>, pattern: Seq<char>, rest: Seq<char>)
    requires
        pattern.len() > 0,
        pattern[0] == '{',
        forall|k: int| 0 <= k < head.len() ==> #[trigger] head[k] != '{',
    ensures
        forall|i: int|
            0 <= i < head.len() ==> !(#[trigger] occurs_at(head + pattern + rest, pattern, i)),
{
    assert forall|i: int| 0 <= i < head.len() implies !(#[trigger] occurs_at(
        head + pattern + rest,
        pattern,
        i,
    )) by {
        let s = head + pattern + rest;
        if occurs_at(s, pattern, i) {
            law_occurs_at(s, pattern, i);
            assert(s[i + 0] == pattern[0]);
            assert(s[i] == head[i]);
        }
    }
}

/// The address of a dependency has the version and the architecture in place of
/// their placeholders, and is otherwise the template.
pub proof fn law_address(
    head: Seq<char>,
    middle: Seq<char>,
    tail: Seq<char>,
    version: Seq<char>,
    arch: Seq<char>,
)
    requires
        forall|k: int| 0 <= k < head.len() ==> #[trigger] head[k] != '{',
        forall|k: int| 0 <= k < middle.len() ==> #[trigger] middle[k] != '{',
        forall|k: int| 0 <= k < tail.len() ==> #[trigger] tail[k] != '{',
        forall|k: int| 0 <= k < version.len() ==> #[trigger] version[k] != '{',
    ensures
        address(head + "{version}"@ + middle + "{arch}"@ + tail, version, arch) == head + version
            + middle + arch + tail,
        address(head + "{version}"@ + middle, version, arch) == head + version + middle,
{
    reveal_strlit("{version}");
    reveal_strlit("{arch}");
    reveal_strlit("version");
    reveal_strlit("arch");
    reveal_strlit("{");
    reveal_strlit("}");
    assert(placeholder("version"@) =~= "{version}"@);
    assert(placeholder("arch"@) =~= "{arch}"@);
    let rest = middle + "{arch}"@ + tail;
    let s = head + "{version}"@ + middle + "{arch}"@ + tail;
    assert(s =~= head + "{version}"@ + rest);
    lemma_no_brace(head, "{version}"@, rest);
    law_replaced(head, "{version}"@, rest, version);
    assert forall|i: int| !(#[trigger] occurs_at(rest, "{version}"@, i)) by {
        if occurs_at(rest, "{version}"@, i) {
            law_occurs_at(rest, "{version}"@, i);
            assert(rest[i + 0] == "{version}"@[0]);
            assert(rest[i + 1] == "{version}"@[1]);
            if i < middle.len() {
                assert(rest[i] == middle[i]);
            } else if i == middle.len() {
                assert(rest[i + 1] == "{arch}"@[1]);
            } else if i < middle.len() + 6 {
                assert(rest[i] == "{arch}"@[i - middle.len()]);
            } else {
                assert(rest[i] == tail[i - middle.len() - 6]);
            }
        }
    }
    law_replaced_absent(rest, "{version}"@, version);
    let front = head + version + middle;
    assert(head + version + rest =~= front + "{arch}"@ + tail);
    assert forall|k: int| 0 <= k < front.len() implies #[trigger] front[k] != '{' by {
        if k < head.len() {
            assert(front[k] == head[k]);
        } else if k < head.len() + version.len() {
            assert(front[k] == version[k - head.len()]);
        } else {
            assert(front[k] == middle[k - head.len() - version.len()]);
        }
    }
    lemma_no_brace(front, "{arch}"@, tail);
    law_replaced(front, "{arch}"@, tail, arch);
    assert forall|i: int| !(#[trigger] occurs_at(tail, "{arch}"@, i)) by {
        if occurs_at(tail, "{arch}"@, i) {
            law_occurs_at(tail, "{arch}"@, i);
            assert(tail[i + 0] == "{arch}"@[0]);
        }
    }
    law_replaced_absent(tail, "{arch}"@, arch);
    assert(front + arch + tail =~= head + version + middle + arch + tail);

    let t = head + "{version}"@ + middle;
    lemma_no_brace(head, "{version}"@, middle);
    law_replaced(head, "{version}"@, middle, version);
    assert forall|i: int| !(#[trigger] occurs_at(middle, "{version}"@, i)) by {
        if occurs_at(middle, "{version}"@, i) {
            law_occurs_at(middle, "{version}"@, i);
            assert(middle[i + 0] == "{version}"@[0]);
        }
    }
    law_replaced_absent(middle, "{version}"@, version);
    assert(replaced(t, "{version}"@, version) == front);
    assert forall|i: int| !(#[trigger] occurs_at(front, "{arch}"@, i)) by {
        if occurs_at(front, "{arch}"@, i) {
            law_occurs_at(front, "{arch}"@, i);
            assert(front[i + 0] == "{arch}"@[0]);
        }
    }
    law_replaced_absent(front, "{arch}"@, arch);
}

/// What counts of a file: it is used again exactly where it is a file with
/// something in it; a configured one has to be that too, and readable, and
/// executable where it is a program.
pub proof fn law_usable_files(
    facts: Option<FileFacts>,
    key: Seq<char>,
    path: Seq<u8>,
    executable: bool,
    seen: Result<FileFacts, String>,
    opened: Result<(), String>,
)
    ensures
        usable(facts) <==> facts is Some && facts->0.is_file && facts->0.len > 0,
        explicit_rejection(key, path, executable, seen, opened) is None <==> seen is Ok
            && seen->Ok_0.is_file && seen->Ok_0.len > 0 && opened is Ok && (executable
            ==> seen->Ok_0.mode & 0o111 != 0),
        parent(path) matches Some(dir) ==> dir_of(path) == dir,
{
}

/// A tools drive from a configured place needs a configured version, and no other
/// does.
pub proof fn law_tools_version_is_needed(config: AppConfig)
    ensures
        config.tools.drive_path is Some && config.tools.version is None ==> tools_version_missing(
            config,
        ),
        config.tools.url is Some && config.tools.version is None ==> tools_version_missing(config),
        config.tools.version is Some ==> !tools_version_missing(config),
        config.tools.drive_path is None && config.tools.url is None ==> !tools_version_missing(
            config,
        ),
{
}

/// The registry client stays exactly where it could be run, said that all was
/// well, and named the version of the release on its own in its output.
pub proof fn law_registry_client_is_pinned(probe: Option<VersionProbe>, version: Seq<char>)
    ensures
        probe is None ==> !regctl_pinned(probe, version),
        probe matches Some(probe) ==> (regctl_pinned(Some(probe), version) <==> probe.success
            && exists|i: int| token_at(lossy_text(probe.stdout@), version, i)),
{
}

/// Whether `version` stands on its own in the output of a program.
pub fn version_output_mentions_exact_token(output: &str, version: &str) -> (r: bool)
    ensures
        r == exists|i: int| token_at(output@, version@, i),
{
    has_token(output, version)
}

/// What a program that was asked for its version said.
#[derive(Debug)]
pub struct VersionProbe {
    pub success: bool,
    pub stdout: FsPath,
}

/// What is done to have the registry client.
#[derive(Debug)]
pub enum RegctlPlan {
    /// The right version is installed.
    Pinned,
    /// It is downloaded to `path` and made executable; what is there is removed
    /// first.
    Download { url: String, path: FsPath },
}

/// The registry client that is installed has the version of the release.
pub open spec fn regctl_pinned(probe: Option<VersionProbe>, version: Seq<char>) -> bool {
    probe matches Some(probe) && probe.success && exists|i: int|
        token_at(lossy_text(probe.stdout@), version, i)
}

/// What is done to have the registry client, where `probe` is what the
/// installed one said, if it could be run.
pub fn plan_regctl(
    deps_path: &FsPath,
    manifest: &SetupDependencyManifest,
    arch: &str,
    probe: &Option<VersionProbe>,
) -> (r: Result<RegctlPlan, Failure>)
    ensures
        ({
            let version = manifest.regclient.version@;
            if regctl_pinned(*probe, version) {
                r matches Ok(RegctlPlan::Pinned)
            } else if arch@ != "x86_64"@ && arch@ != "aarch64"@ {
                r matches Err(failure) && failure@ == "unsupported architecture for regctl: "@
                    + arch@
            } else {
                &&& r matches Ok(RegctlPlan::Download { url, path })
                &&& url@ == address(
                    manifest.regclient.url@,
                    version,
                    if arch@ == "x86_64"@ {
                        "amd64"@
                    } else {
                        "arm64"@
                    },
                )
                &&& path@ == dependency_path(deps_path@, "regctl"@, version, "regctl"@)
            }
        }),
{
    let version: &str = manifest.regclient.version.as_str();
    if let Some(probe) = probe {
        if probe.success && version_output_mentions_exact_token(
            probe.stdout.to_text_lossy().as_str(),
            version,
        ) {
            return Ok(RegctlPlan::Pinned);
        }
    }
    let name: &str = if text_eq(arch, "x86_64") {
        "amd64"
    } else if text_eq(arch, "aarch64") {
        "arm64"
    } else {
        return Err(Failure::new(joined("unsupported architecture for regctl: ", arch)));
    };
    let url: String = versioned_address(manifest.regclient.url.as_str(), version, name);
    Ok(RegctlPlan::Download { url, path: regctl_path(deps_path, manifest) })
}

/// An address is resolved one placeholder after the other: without placeholders it
/// is the template, and one more key replaces its name in braces by its value.
pub proof fn law_resolved_urls(template: Seq<char>, vars: Seq<(&str, &str)>, var: (&str, &str))
    ensures
        url_resolved(template, Seq::empty()) == template,
        url_resolved(template, vars.push(var)) == replaced(
            url_resolved(template, vars),
            seq!['{'] + var.0@ + seq!['}'],
            var.1@,
        ),
{
    reveal_strlit("{");
    reveal_strlit("}");
    assert(vars.push(var).drop_last() =~= vars);
    assert(placeholder(var.0@) =~= seq!['{'] + var.0@ + seq!['}']);
}

} // verus!
