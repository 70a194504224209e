//! The configuration that a process runs with, and the file it came from.
use crate::config::normalize::{
    bad_domain_text, first_invalid, nonblank, normal_domains, paths_resolved, rest_kept,
    text_option,
};
use crate::config::paths::{path_option, resolve_path, resolve_relative_to};
use crate::config::types::AppConfig;
use crate::config::validate::CanonicalPaths;
use crate::failure::Failure;
use crate::fs_path::{FsPath, components, join_text, lexical, parent, render};
use crate::text::{is_white, texts, trim, trimmed};
use crate::text_laws::law_trimmed;
use vstd::prelude::*;
use vstd::utf8::*;

verus! {

/// The environment variable that names the configuration file.
pub const ENV_CONFIG_PATH: &'static str = "AENV_CONFIG_PATH";

/// The directory that relative paths in the file `path` are relative to.
pub open spec fn config_dir(path: Seq<u8>) -> Seq<u8> {
    match parent(path) {
        Some(dir) => dir,
        None => encode_utf8("."@),
    }
}

/// The path in the value of an environment variable: none where the variable
/// is not set or blank.
pub open spec fn env_path(value: Option<Seq<char>>) -> Option<Seq<u8>> {
    match nonblank(value) {
        Some(text) => Some(encode_utf8(text)),
        None => None,
    }
}

/// The configuration file of a process: the one that the environment names, or
/// the one that comes with the server.
pub open spec fn selected_path(value: Option<Seq<char>>, manifest_dir: Seq<u8>) -> Seq<u8> {
    match env_path(value) {
        Some(path) => path,
        None => join_text(join_text(manifest_dir, "config"@), "default.toml"@),
    }
}

/// `config` is `loaded` normalized against `config_dir`: its paths resolved, a
/// blank endpoint of the scheduler dropped, its domains in their normal form,
/// and nothing else changed.
pub open spec fn normalized_from(
    loaded: AppConfig,
    config: AppConfig,
    config_dir: Seq<u8>,
) -> bool {
    &&& paths_resolved(loaded, config, config_dir)
    &&& rest_kept(loaded, config)
    &&& text_option(config.cluster.scheduler_endpoint) == nonblank(
        text_option(loaded.cluster.scheduler_endpoint),
    )
    &&& Some(texts(config.sandbox_proxy.domains@)) == normal_domains(
        texts(loaded.sandbox_proxy.domains@),
    )
}

/// `failure` is why `loaded`, read from the file `path`, is not taken into use:
/// a domain that is none, or else what is not acceptable in the normalized
/// configuration.
pub open spec fn refused(
    path: Seq<u8>,
    loaded: AppConfig,
    canonical: CanonicalPaths,
    failure: Failure,
) -> bool {
    let domains = texts(loaded.sandbox_proxy.domains@);
    if normal_domains(domains) is None {
        exists|i: int|
            {
                &&& #[trigger] first_invalid(domains, i)
                &&& failure@ == bad_domain_text(domains[i])
            }
    } else {
        forall|config: AppConfig| #[trigger]
            normalized_from(loaded, config, config_dir(path)) ==> config.judged(
                canonical,
                Err(failure),
            )
    }
}

/// What the checks of a normalized configuration come to depends on what was
/// read and on the directory alone.
proof fn lemma_judged_alike(
    loaded: AppConfig,
    a: AppConfig,
    b: AppConfig,
    dir: Seq<u8>,
    canonical: CanonicalPaths,
    r: Result<(), Failure>,
)
    requires
        normalized_from(loaded, a, dir),
        normalized_from(loaded, b, dir),
        a.judged(canonical, r),
    ensures
        b.judged(canonical, r),
{
    assert(a.network == b.network);
    assert(a.pool == b.pool);
}

/// `config` is what `loaded`, read from the file `path`, comes to, and was
/// accepted with these canonical paths.
pub open spec fn accepted_from(
    loaded: AppConfig,
    canonical: CanonicalPaths,
    config: AppConfig,
    path: Seq<u8>,
) -> bool {
    &&& normalized_from(loaded, config, config_dir(path))
    &&& config.judged(canonical, Ok(()))
}

/// `config` was normalized against the directory of its file `path` and was
/// accepted.
pub open spec fn in_order(config: AppConfig, path: Seq<u8>) -> bool {
    exists|loaded: AppConfig, canonical: CanonicalPaths| #[trigger]
        accepted_from(loaded, canonical, config, path)
}

/// A configuration that was normalized and accepted, and the file it came from.
#[derive(Debug)]
pub struct ConfigManager {
    config: AppConfig,
    config_path: Option<FsPath>,
}

impl ConfigManager {
    #[verifier::type_invariant]
    spec fn type_inv(self) -> bool {
        self.config_path is Some && in_order(self.config, self.config_path->0@)
    }

    /// The configuration.
    pub closed spec fn spec_config(&self) -> AppConfig {
        self.config
    }

    /// The file that the configuration came from.
    pub closed spec fn spec_path(&self) -> Option<Seq<u8>> {
        path_option(self.config_path)
    }

    /// The configuration file that comes with the server in `manifest_dir`.
    pub fn default_config_path(manifest_dir: &FsPath) -> (r: FsPath)
        ensures
            r@ == join_text(join_text(manifest_dir@, "config"@), "default.toml"@),
    {
        manifest_dir.join_text("config").join_text("default.toml")
    }

    /// The path in the value of an environment variable.
    pub fn env_path(value: Option<String>) -> (r: Option<FsPath>)
        ensures
            r is Some <==> env_path(text_option(value)) is Some,
            r matches Some(path) ==> Some(path@) == env_path(text_option(value)),
    {
        match value {
            Some(value) => {
                let text: String = trim(value.as_str());
                if text.as_str().unicode_len() == 0 {
                    None
                } else {
                    Some(FsPath::from_text(text.as_str()))
                }
            },
            None => None,
        }
    }

    /// The configuration file of a process, where `value` is the value of
    /// `ENV_CONFIG_PATH`.
    pub fn select_config_path(value: Option<String>, manifest_dir: &FsPath) -> (r: FsPath)
        ensures
            r@ == selected_path(text_option(value), manifest_dir@),
    {
        match ConfigManager::env_path(value) {
            Some(path) => path,
            None => ConfigManager::default_config_path(manifest_dir),
        }
    }

    /// Normalizes the configuration that was read from the file `path`.
    pub fn prepare(path: &FsPath, loaded: AppConfig) -> (r: Result<AppConfig, Failure>)
        ensures
            r is Ok <==> normal_domains(texts(loaded.sandbox_proxy.domains@)) is Some,
            r matches Ok(config) ==> normalized_from(loaded, config, config_dir(path@)),
            r matches Err(failure) ==> exists|i: int|
                {
                    &&& #[trigger] first_invalid(texts(loaded.sandbox_proxy.domains@), i)
                    &&& failure@ == bad_domain_text(texts(loaded.sandbox_proxy.domains@)[i])
                },
    {
        let dir: FsPath = match path.parent() {
            Some(dir) => dir,
            None => FsPath::from_text("."),
        };
        let mut config: AppConfig = loaded;
        match config.normalize(&dir) {
            Ok(()) => Ok(config),
            Err(failure) => Err(failure),
        }
    }

    /// The spellings, without `.` and `..`, of the two global configurations
    /// that `loaded`, read from the file `path`, has once it is normalized. Their
    /// canonical paths are asked for.
    pub fn global_config_spellings(path: &FsPath, loaded: &AppConfig) -> (r: (FsPath, FsPath))
        ensures
            forall|config: AppConfig| #[trigger]
                paths_resolved(*loaded, config, config_dir(path@)) ==> {
                    &&& r.0@ == render(
                        lexical(components(config.ublk.overlaybd.global_config_path@)),
                    )
                    &&& r.1@ == render(
                        lexical(components(config.memory_snapshot.overlaybd_global_config_path@)),
                    )
                },
    {
        let dir: FsPath = match path.parent() {
            Some(dir) => dir,
            None => FsPath::from_text("."),
        };
        let home: FsPath = resolve_relative_to(&dir, &loaded.home_path);
        let rootfs: FsPath = resolve_path(&home, &dir, &loaded.ublk.overlaybd.global_config_path);
        let memory: FsPath = resolve_path(
            &home,
            &dir,
            &loaded.memory_snapshot.overlaybd_global_config_path,
        );
        (rootfs.lexically_normalized(), memory.lexically_normalized())
    }

    /// Normalizes `loaded`, the configuration that was read from the file
    /// `path`, and takes it into use where it is acceptable. `canonical` holds
    /// the canonical paths of `global_config_spellings`.
    pub fn new_from_path(path: &FsPath, loaded: AppConfig, canonical: &CanonicalPaths) -> (r: Result<
        ConfigManager,
        Failure,
    >)
        ensures
            match r {
                Ok(manager) => {
                    &&& accepted_from(loaded, *canonical, manager.spec_config(), path@)
                    &&& manager.spec_path() == Some(path@)
                },
                Err(failure) => refused(path@, loaded, *canonical, failure),
            },
    {
        let config: AppConfig = match ConfigManager::prepare(path, loaded) {
            Ok(config) => config,
            Err(failure) => {
                return Err(failure);
            },
        };
        match config.validate(canonical) {
            Ok(()) => {
                assert(accepted_from(loaded, *canonical, config, path@));
                assert(in_order(config, path@));
                Ok(ConfigManager { config, config_path: Some(path.clone()) })
            },
            Err(failure) => {
                proof {
                    let dir = config_dir(path@);
                    assert forall|other: AppConfig| #[trigger]
                        normalized_from(loaded, other, dir) implies other.judged(
                        *canonical,
                        Err(failure),
                    ) by {
                        lemma_judged_alike(loaded, config, other, dir, *canonical, Err(failure));
                    }
                }
                Err(failure)
            },
        }
    }

    /// Like `new_from_path`, for the configuration file of this process. `value`
    /// is the value of `ENV_CONFIG_PATH`.
    pub fn new(
        value: Option<String>,
        manifest_dir: &FsPath,
        loaded: AppConfig,
        canonical: &CanonicalPaths,
    ) -> (r: Result<ConfigManager, Failure>)
        ensures
            ({
                let path = selected_path(text_option(value), manifest_dir@);
                match r {
                    Ok(manager) => {
                        &&& accepted_from(loaded, *canonical, manager.spec_config(), path)
                        &&& manager.spec_path() == Some(path)
                    },
                    Err(failure) => refused(path, loaded, *canonical, failure),
                }
            }),
    {
        let path: FsPath = ConfigManager::select_config_path(value, manifest_dir);
        ConfigManager::new_from_path(&path, loaded, canonical)
    }

    /// The configuration. Every manager has one that was normalized against the
    /// directory of its file and was accepted.
    pub fn config(&self) -> (r: &AppConfig)
        ensures
            *r == self.spec_config(),
            self.spec_path() is Some,
            in_order(*r, self.spec_path()->0),
    {
        proof {
            use_type_invariant(self);
        }
        &self.config
    }

    /// The file that the configuration came from.
    pub fn config_path(&self) -> (r: Option<&FsPath>)
        ensures
            r matches Some(path) && Some(path@) == self.spec_path(),
    {
        proof {
            use_type_invariant(self);
        }
        self.config_path.as_ref()
    }
}

/// The configuration file of a process is the one that the environment names,
/// without white space around it, and where it names none the one in the
/// directory of the server.
pub proof fn law_selected_path(value: Option<Seq<char>>, manifest_dir: Seq<u8>, path: Seq<u8>)
    ensures
        value matches Some(text) ==> ((exists|k: int|
            0 <= k < text.len() && !is_white(#[trigger] text[k])) ==> selected_path(
            value,
            manifest_dir,
        ) == encode_utf8(trimmed(text))),
        value is None || (forall|k: int|
            0 <= k < value->0.len() ==> is_white(#[trigger] value->0[k])) ==> selected_path(
            value,
            manifest_dir,
        ) == join_text(join_text(manifest_dir, "config"@), "default.toml"@),
        value matches Some(text) ==> (env_path(value) is None <==> forall|k: int|
            0 <= k < text.len() ==> is_white(#[trigger] text[k])),
        env_path(value) matches Some(named) ==> value is Some && named == encode_utf8(
            trimmed(value->0),
        ),
        parent(path) matches Some(dir) ==> config_dir(path) == dir,
        parent(path) is None ==> config_dir(path) == encode_utf8("."@),
{
    if value is Some {
        law_trimmed(value->0);
    }
}

/// A configuration that is in use was normalized in all its parts against the
/// directory of its file, and was accepted.
pub proof fn law_used_configurations_are_normalized(
    loaded: AppConfig,
    canonical: CanonicalPaths,
    config: AppConfig,
    path: Seq<u8>,
)
    requires
        accepted_from(loaded, canonical, config, path),
    ensures
        parent(path) matches Some(dir) ==> paths_resolved(loaded, config, dir),
        parent(path) is None ==> paths_resolved(loaded, config, encode_utf8("."@)),
        rest_kept(loaded, config),
        text_option(config.cluster.scheduler_endpoint) == nonblank(
            text_option(loaded.cluster.scheduler_endpoint),
        ),
        normal_domains(texts(loaded.sandbox_proxy.domains@)) == Some(
            texts(config.sandbox_proxy.domains@),
        ),
        config.judged(canonical, Ok(())),
{
}

/// A configuration with a domain that is none is refused because of that domain,
/// whatever else is wrong with it; any other is refused for what its normalized
/// form is refused for.
pub proof fn law_refused_configurations(
    path: Seq<u8>,
    loaded: AppConfig,
    config: AppConfig,
    canonical: CanonicalPaths,
    failure: Failure,
)
    requires
        refused(path, loaded, canonical, failure),
    ensures
        normal_domains(texts(loaded.sandbox_proxy.domains@)) is None ==> exists|i: int|
            {
                &&& #[trigger] first_invalid(texts(loaded.sandbox_proxy.domains@), i)
                &&& failure@ == bad_domain_text(texts(loaded.sandbox_proxy.domains@)[i])
            },
        normal_domains(texts(loaded.sandbox_proxy.domains@)) is Some && normalized_from(
            loaded,
            config,
            config_dir(path),
        ) ==> config.judged(canonical, Err(failure)) && !config.judged(canonical, Ok(())),
{
}

} // verus!
