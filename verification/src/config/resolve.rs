//! Where the dependencies of a configuration are.
use crate::config::types::AppConfig;
use crate::failure::{Failure, in_context};
use crate::fs_path::{DOT, FsPath, SLASH, components, join_text, lemma_ascii_bytes};
use crate::manifest::SetupDependencyManifest;
use crate::path_laws::{is_segment, lemma_components_join};
use crate::text::joined3;
use vstd::prelude::*;
use vstd::utf8::*;

verus! {

/// A version that was read.
#[derive(Debug)]
pub struct ParsedVersion {
    pub text: String,
    /// The build metadata behind the `+`.
    pub build: String,
}

/// What the error of `semver::Version::parse` says of a text; nothing where the
/// text is accepted.
pub uninterp spec fn semver_rejection(text: Seq<char>) -> Option<Seq<char>>;

/// A character that a version can hold.
pub open spec fn version_char(c: char) -> bool {
    ||| '0' <= c && c <= '9'
    ||| 'A' <= c && c <= 'Z'
    ||| 'a' <= c && c <= 'z'
    ||| c == '.'
    ||| c == '-'
    ||| c == '+'
}

/// `semver::Version::parse`: whether a text is accepted, and the error where it
/// is not, depend on the text alone. An accepted text begins with a digit,
/// holds only letters, digits, `.`, `-` and `+`, and is what the version is
/// written as again; it has build metadata exactly when it holds a `+`.
#[verifier::external_body]
fn parse_version(text: &str) -> (r: Result<ParsedVersion, String>)
    ensures
        r is Ok <==> semver_rejection(text@) is None,
        r matches Err(error) ==> semver_rejection(text@) == Some(error@),
        r matches Ok(version) ==> version.text@ == text@,
        r matches Ok(version) ==> (version.build@.len() > 0 <==> text@.contains('+')),
        r matches Ok(version) ==> text@.len() > 0 && '0' <= text@[0] && text@[0] <= '9',
        r matches Ok(version) ==> forall|k: int|
            0 <= k < text@.len() ==> version_char(#[trigger] text@[k]),
{
    match semver::Version::parse(text) {
        Ok(v) => Ok(ParsedVersion { text: v.to_string(), build: v.build.as_str().to_owned() }),
        Err(error) => Err(error.to_string()),
    }
}

/// The text of an optional value, or of its default.
pub open spec fn text_or(value: Option<String>, default: String) -> Seq<char> {
    match value {
        Some(value) => value@,
        None => default@,
    }
}

fn str_or<'a>(value: &'a Option<String>, default: &'a String) -> (r: &'a str)
    ensures
        r@ == text_or(*value, *default),
{
    match value {
        Some(value) => value.as_str(),
        None => default.as_str(),
    }
}

/// The path of a file in a versioned directory of the dependencies.
pub open spec fn dependency_path(
    deps_path: Seq<u8>,
    name: Seq<char>,
    version: Seq<char>,
    file: Seq<char>,
) -> Seq<u8> {
    join_text(join_text(join_text(deps_path, name), version), file)
}

fn dependency_file(deps_path: &FsPath, name: &str, version: &str, file: &str) -> (r: FsPath)
    ensures
        r@ == dependency_path(deps_path@, name@, version@, file@),
{
    deps_path.join_text(name).join_text(version).join_text(file)
}

/// The path of the registry client in `deps_path`.
pub fn regctl_path(deps_path: &FsPath, manifest: &SetupDependencyManifest) -> (r: FsPath)
    ensures
        r@ == dependency_path(
            deps_path@,
            "regctl"@,
            manifest.regclient.version@,
            "regctl"@,
        ),
{
    dependency_file(deps_path, "regctl", manifest.regclient.version.as_str(), "regctl")
}

/// Why `version` is no version of the tools drive, if it is none, where `parsed`
/// is what it was read as.
pub open spec fn parsed_rejection(
    version: Seq<char>,
    parsed: Result<ParsedVersion, String>,
) -> Option<Seq<char>> {
    match parsed {
        Err(error) => Some(
            in_context(
                "invalid tools drive version '"@ + version
                    + "': expected SemVer without build metadata"@,
                error@,
            ),
        ),
        Ok(parsed) => if parsed.build@.len() > 0 {
            Some(
                "invalid tools drive version '"@ + parsed.text@
                    + "': build metadata is not supported"@,
            )
        } else {
            None
        },
    }
}

/// The tools drive of `version` in `deps_path`, where `parsed` is what the
/// version was read as, or why it is none.
pub fn tools_drive_for(
    deps_path: &FsPath,
    version: &str,
    parsed: Result<ParsedVersion, String>,
) -> (r: Result<FsPath, Failure>)
    ensures
        match r {
            Ok(path) => {
                &&& parsed_rejection(version@, parsed) is None
                &&& path@ == dependency_path(
                    deps_path@,
                    "tools"@,
                    parsed->Ok_0.text@,
                    "tools.ext4"@,
                )
            },
            Err(failure) => parsed_rejection(version@, parsed) == Some(failure@),
        },
{
    match parsed {
        Err(error) => {
            let context: String = joined3(
                "invalid tools drive version '",
                version,
                "': expected SemVer without build metadata",
            );
            Err(Failure::new(error).context(context.as_str()))
        },
        Ok(parsed) => {
            if parsed.build.as_str().unicode_len() > 0 {
                return Err(
                    Failure::new(
                        joined3(
                            "invalid tools drive version '",
                            parsed.text.as_str(),
                            "': build metadata is not supported",
                        ),
                    ),
                );
            }
            Ok(dependency_file(deps_path, "tools", parsed.text.as_str(), "tools.ext4"))
        },
    }
}

/// Why `version` is no version of the tools drive, if it is none.
pub open spec fn tools_version_rejection(version: Seq<char>) -> Option<Seq<char>> {
    if semver_rejection(version) is Some {
        Some(
            in_context(
                "invalid tools drive version '"@ + version
                    + "': expected SemVer without build metadata"@,
                semver_rejection(version)->0,
            ),
        )
    } else if version.contains('+') {
        Some(
            "invalid tools drive version '"@ + version
                + "': build metadata is not supported"@,
        )
    } else {
        None
    }
}

impl AppConfig {
    /// The version of the virtual machine monitor.
    pub open spec fn firecracker_version(self, manifest: SetupDependencyManifest) -> Seq<char> {
        text_or(
            self.firecracker.version,
            manifest.firecracker.spec_for_mode(self.virtualization_mode).version,
        )
    }

    /// The version of the guest kernel.
    pub open spec fn kernel_version(self, manifest: SetupDependencyManifest) -> Seq<char> {
        text_or(
            self.kernel.version,
            manifest.kernel.spec_for_mode(self.virtualization_mode).version,
        )
    }

    /// The version of the tools drive.
    pub open spec fn tools_version(self, manifest: SetupDependencyManifest) -> Seq<char> {
        text_or(self.tools.version, manifest.tools.version)
    }

    /// The program of the virtual machine monitor: the configured one, or the
    /// one that was set up.
    pub fn resolved_firecracker_binary_path(&self, manifest: &SetupDependencyManifest) -> (r: FsPath)
        ensures
            r@ == (match self.firecracker.binary_path {
                Some(path) => path@,
                None => dependency_path(
                    self.deps_path@,
                    "firecracker"@,
                    self.firecracker_version(*manifest),
                    "firecracker"@,
                ),
            }),
    {
        match &self.firecracker.binary_path {
            Some(path) => path.clone(),
            None => {
                let download = manifest.firecracker.for_mode(self.virtualization_mode);
                let version: &str = str_or(&self.firecracker.version, &download.version);
                dependency_file(&self.deps_path, "firecracker", version, "firecracker")
            },
        }
    }

    /// The guest kernel: the configured one, or the one that was set up.
    pub fn resolved_kernel_image_path(&self, manifest: &SetupDependencyManifest) -> (r: FsPath)
        ensures
            r@ == (match self.kernel.image_path {
                Some(path) => path@,
                None => dependency_path(
                    self.deps_path@,
                    "kernel"@,
                    self.kernel_version(*manifest),
                    "vmlinux.bin"@,
                ),
            }),
    {
        match &self.kernel.image_path {
            Some(path) => path.clone(),
            None => {
                let download = manifest.kernel.for_mode(self.virtualization_mode);
                let version: &str = str_or(&self.kernel.version, &download.version);
                dependency_file(&self.deps_path, "kernel", version, "vmlinux.bin")
            },
        }
    }

    /// The version of the tools drive: the configured one, or that of the
    /// release.
    pub fn resolved_tools_version<'a>(&'a self, manifest: &'a SetupDependencyManifest) -> (r:
        &'a str)
        ensures
            r@ == self.tools_version(*manifest),
    {
        str_or(&self.tools.version, &manifest.tools.version)
    }

    /// The tools drive of `version`. The version has to be one without build
    /// metadata; its directory is then always a directory of its own below that
    /// of the tools drives.
    pub fn resolved_tools_drive_path_for_version(&self, version: &str) -> (r: Result<
        FsPath,
        Failure,
    >)
        ensures
            r is Ok <==> tools_version_rejection(version@) is None,
            r matches Err(failure) ==> tools_version_rejection(version@) == Some(failure@),
            r matches Ok(path) ==> path@ == dependency_path(
                self.deps_path@,
                "tools"@,
                version@,
                "tools.ext4"@,
            ),
            r matches Ok(path) ==> components(path@) == components(
                join_text(self.deps_path@, "tools"@),
            ).push(encode_utf8(version@)).push(encode_utf8("tools.ext4"@)),
    {
        let parsed: Result<ParsedVersion, String> = parse_version(version);
        proof {
            if parsed is Ok {
                lemma_version_segment(version@);
                lemma_tools_file_segment();
                let dir = join_text(self.deps_path@, "tools"@);
                lemma_components_join(dir, encode_utf8(version@));
                lemma_components_join(join_text(dir, version@), encode_utf8("tools.ext4"@));
            }
        }
        tools_drive_for(&self.deps_path, version, parsed)
    }

    /// The tools drive of this configuration.
    pub fn resolved_tools_drive_path(&self, manifest: &SetupDependencyManifest) -> (r: Result<
        FsPath,
        Failure,
    >)
        ensures
            r is Ok <==> tools_version_rejection(self.tools_version(*manifest)) is None,
            r matches Err(failure) ==> tools_version_rejection(self.tools_version(*manifest))
                == Some(failure@),
            r matches Ok(path) ==> path@ == dependency_path(
                self.deps_path@,
                "tools"@,
                self.tools_version(*manifest),
                "tools.ext4"@,
            ),
    {
        self.resolved_tools_drive_path_for_version(self.resolved_tools_version(manifest))
    }

    /// What converted layers are cached under: they are valid for one release
    /// of the converter.
    pub fn resolved_overlaybd_oci_converter_id(&self, manifest: &SetupDependencyManifest) -> (r:
        String)
        ensures
            r@ == "overlaybd-oci:"@ + (match self.overlaybd {
                Some(overlaybd) => overlaybd.version@,
                None => manifest.overlaybd.version@,
            }) + ":agentenv-cache-v1"@,
    {
        let version: &str = match &self.overlaybd {
            Some(overlaybd) => overlaybd.version.as_str(),
            None => manifest.overlaybd.version.as_str(),
        };
        joined3("overlaybd-oci:", version, ":agentenv-cache-v1")
    }

    /// Where the helper for CPU templates is, if it was set up.
    pub fn cpu_template_helper_path(&self, manifest: &SetupDependencyManifest) -> (r: FsPath)
        ensures
            r@ == dependency_path(
                self.deps_path@,
                "firecracker"@,
                self.firecracker_version(*manifest),
                "cpu-template-helper"@,
            ),
    {
        let download = manifest.firecracker.for_mode(self.virtualization_mode);
        let version: &str = str_or(&self.firecracker.version, &download.version);
        dependency_file(&self.deps_path, "firecracker", version, "cpu-template-helper")
    }

    /// The helper for CPU templates, where it is `present` at its path.
    pub fn resolved_cpu_template_helper(
        &self,
        manifest: &SetupDependencyManifest,
        present: bool,
    ) -> (r: Option<FsPath>)
        ensures
            r is Some <==> present,
            r matches Some(path) ==> path@ == dependency_path(
                self.deps_path@,
                "firecracker"@,
                self.firecracker_version(*manifest),
                "cpu-template-helper"@,
            ),
    {
        if present {
            Some(self.cpu_template_helper_path(manifest))
        } else {
            None
        }
    }

    /// The registry client.
    pub fn resolved_regctl_binary(&self, manifest: &SetupDependencyManifest) -> (r: FsPath)
        ensures
            r@ == dependency_path(
                self.deps_path@,
                "regctl"@,
                manifest.regclient.version@,
                "regctl"@,
            ),
    {
        regctl_path(&self.deps_path, manifest)
    }
}

proof fn lemma_version_segment(version: Seq<char>)
    requires
        version.len() > 0,
        '0' <= version[0] && version[0] <= '9',
        forall|k: int| 0 <= k < version.len() ==> version_char(#[trigger] version[k]),
    ensures
        is_segment(encode_utf8(version)),
{
    assert forall|k: int| 0 <= k < version.len() implies (#[trigger] version[k] as u32)
        < 0x80 by {
        assert(version_char(version[k]));
    }
    lemma_ascii_bytes(version);
    let bytes = encode_utf8(version);
    assert forall|k: int| 0 <= k < bytes.len() implies #[trigger] bytes[k] != SLASH by {
        assert(version_char(version[k]));
        assert(bytes[k] == version[k] as u8);
    }
    assert(bytes[0] == version[0] as u8);
    assert(bytes[0] != DOT);
}

proof fn lemma_tools_file_segment()
    ensures
        is_segment(encode_utf8("tools.ext4"@)),
{
    reveal_strlit("tools.ext4");
    let name = "tools.ext4"@;
    lemma_ascii_bytes(name);
    let bytes = encode_utf8(name);
    assert forall|k: int| 0 <= k < bytes.len() implies #[trigger] bytes[k] != SLASH by {
        assert(bytes[k] == name[k] as u8);
    }
    assert(bytes[0] == name[0] as u8);
}

/// A dependency lies in a directory of its version, in the directory of its name,
/// below the dependencies: versions never share a file, and neither do
/// dependencies.
pub proof fn law_dependency_paths(
    deps_path: Seq<u8>,
    name: Seq<char>,
    version: Seq<char>,
    file: Seq<char>,
)
    requires
        is_segment(encode_utf8(name)),
        is_segment(encode_utf8(version)),
        is_segment(encode_utf8(file)),
    ensures
        components(dependency_path(deps_path, name, version, file)) == components(deps_path).push(
            encode_utf8(name),
        ).push(encode_utf8(version)).push(encode_utf8(file)),
{
    lemma_components_join(deps_path, encode_utf8(name));
    lemma_components_join(join_text(deps_path, name), encode_utf8(version));
    lemma_components_join(
        join_text(join_text(deps_path, name), version),
        encode_utf8(file),
    );
}

/// A configured version outweighs that of the release, and the release has one
/// for each way to virtualize.
pub proof fn law_dependency_versions(config: AppConfig, manifest: SetupDependencyManifest)
    ensures
        config.firecracker.version matches Some(version) ==> config.firecracker_version(manifest)
            == version@,
        config.firecracker.version is None && config.virtualization_mode is Kvm
            ==> config.firecracker_version(manifest) == manifest.firecracker.kvm.version@,
        config.firecracker.version is None && config.virtualization_mode is Pvm
            ==> config.firecracker_version(manifest) == manifest.firecracker.pvm.version@,
        config.kernel.version matches Some(version) ==> config.kernel_version(manifest) == version@,
        config.kernel.version is None && config.virtualization_mode is Kvm
            ==> config.kernel_version(manifest) == manifest.kernel.kvm.version@,
        config.kernel.version is None && config.virtualization_mode is Pvm
            ==> config.kernel_version(manifest) == manifest.kernel.pvm.version@,
        config.tools.version matches Some(version) ==> config.tools_version(manifest) == version@,
        config.tools.version is None ==> config.tools_version(manifest) == manifest.tools.version@,
{
}

/// A version of the tools drive is accepted exactly when it is a version and has
/// no build metadata.
pub proof fn law_tools_versions(version: Seq<char>)
    ensures
        tools_version_rejection(version) is None <==> semver_rejection(version) is None
            && !version.contains('+'),
{
}

/// A version that was read is refused exactly where it could not be read or has
/// build metadata.
pub proof fn law_parsed_versions(version: Seq<char>, parsed: Result<ParsedVersion, String>)
    ensures
        parsed_rejection(version, parsed) is None <==> parsed is Ok && parsed->Ok_0.build@.len()
            == 0,
        parsed matches Err(error) ==> parsed_rejection(version, parsed) == Some(
            "invalid tools drive version '"@ + version
                + "': expected SemVer without build metadata"@ + ": "@ + error@,
        ),
        parsed matches Ok(read) ==> (read.build@.len() > 0 ==> parsed_rejection(version, parsed)
            == Some(
            "invalid tools drive version '"@ + read.text@ + "': build metadata is not supported"@,
        )),
{
}

} // verus!
