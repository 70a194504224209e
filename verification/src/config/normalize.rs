//! The configuration as it is used: paths resolved, blank values dropped,
//! domains in their normal form.
use crate::config::image::{ImageConfig, ImageCacheConfig};
use crate::config::network::{dns_name, normalize_dns_name};
use crate::config::paths::{
    path_option, resolve_in_place, resolve_optional_config_path_or, resolve_path,
    resolve_relative_to, resolve_runtime_path, resolve_set_path, resolved, resolved_or,
    runtime_resolved,
};
use crate::config::types::{
    AppConfig, BackendConfig, ClusterConfig, FirecrackerConfig, KernelConfig, MemorySnapshotConfig,
    OrchestratorConfig, P2pConfig, PosixFsBackendConfig, SandboxProxyConfig, SnapshotConfig,
    SnapshotRepositoryBackendKind, ToolsConfig, UblkOverlaybdTomlConfig, UblkTomlConfig,
};
use crate::failure::Failure;
use crate::fs_path::{FsPath, join};
use crate::text::{
    joined, lemma_texts_push, text_eq, texts, trim, trim_end_matches, trim_end_of, trimmed,
};
use vstd::prelude::*;
use vstd::utf8::*;

verus! {

/// The model of an optional text.
pub open spec fn text_option(text: Option<String>) -> Option<Seq<char>> {
    match text {
        Some(text) => Some(text@),
        None => None,
    }
}

/// An optional text without white space around it; a blank one is dropped.
pub open spec fn nonblank(text: Option<Seq<char>>) -> Option<Seq<char>> {
    match text {
        Some(text) => if trimmed(text).len() == 0 {
            None
        } else {
            Some(trimmed(text))
        },
        None => None,
    }
}

impl ClusterConfig {
    /// Trims the endpoint of the scheduler and drops a blank one.
    pub fn normalize(&mut self)
        ensures
            text_option(final(self).scheduler_endpoint) == nonblank(
                text_option(old(self).scheduler_endpoint),
            ),
    {
        let taken: Option<String> = self.scheduler_endpoint.take();
        self.scheduler_endpoint = match taken {
            Some(endpoint) => {
                let endpoint: String = trim(endpoint.as_str());
                if endpoint.as_str().unicode_len() == 0 {
                    None
                } else {
                    Some(endpoint)
                }
            },
            None => None,
        };
    }
}

/// A configured domain without white space around it and without the dots at
/// its end.
pub open spec fn bare_domain(domain: Seq<char>) -> Seq<char> {
    trim_end_of(trimmed(domain), '.')
}

/// The domains in their normal form, in the order in which they were
/// configured and each of them once; `None` where one of them is no domain.
/// Blank ones are dropped.
pub open spec fn normal_domains(domains: Seq<Seq<char>>) -> Option<Seq<Seq<char>>>
    decreases domains.len(),
{
    if domains.len() == 0 {
        Some(Seq::empty())
    } else {
        match normal_domains(domains.drop_last()) {
            None => None,
            Some(seen) => {
                let domain = bare_domain(domains.last());
                if domain.len() == 0 {
                    Some(seen)
                } else {
                    match dns_name(domain) {
                        None => None,
                        Some(name) => if seen.contains(name) {
                            Some(seen)
                        } else {
                            Some(seen.push(name))
                        },
                    }
                }
            },
        }
    }
}

/// `std`'s `Debug` of a text: the text in quotes, with escapes.
pub uninterp spec fn debug_quoted(text: Seq<char>) -> Seq<char>;

/// `std::fmt::Debug` for `str`: what it writes depends on the text alone and is
/// named `debug_quoted`.
#[verifier::external_body]
fn quoted(text: &str) -> (r: String)
    ensures
        r@ == debug_quoted(text@),
{
    format!("{text:?}")
}

/// The text at position `i` is the first in `domains` that is no domain.
pub open spec fn first_invalid(domains: Seq<Seq<char>>, i: int) -> bool {
    &&& 0 <= i < domains.len()
    &&& normal_domains(domains.take(i)) is Some
    &&& bare_domain(domains[i]).len() > 0
    &&& dns_name(bare_domain(domains[i])) is None
}

/// The text of the failure for a domain that is none.
pub open spec fn bad_domain_text(domain: Seq<char>) -> Seq<char> {
    "sandbox_proxy.domains contains invalid domain "@ + debug_quoted(bare_domain(domain))
}

/// What is invalid in some of the domains is invalid in all of them.
proof fn lemma_invalid_stays(domains: Seq<Seq<char>>, i: int)
    requires
        0 <= i <= domains.len(),
        normal_domains(domains.take(i)) is None,
    ensures
        normal_domains(domains) is None,
    decreases domains.len() - i,
{
    if i == domains.len() {
        assert(domains.take(i) =~= domains);
    } else {
        assert(domains.take(i + 1).drop_last() =~= domains.take(i));
        lemma_invalid_stays(domains, i + 1);
    }
}

fn contains_text(list: &Vec<String>, text: &str) -> (r: bool)
    ensures
        r == texts(list@).contains(text@),
{
    let mut i: usize = 0;
    while i < list.len()
        invariant
            i <= list@.len(),
            forall|k: int| 0 <= k < i ==> (#[trigger] texts(list@)[k]) != text@,
        decreases list@.len() - i,
    {
        assert(texts(list@)[i as int] == list@[i as int]@);
        if text_eq(list[i].as_str(), text) {
            return true;
        }
        i = i + 1;
    }
    false
}

impl SandboxProxyConfig {
    /// Brings the domains into their normal form. The order is kept: the first
    /// domain is the one that is advertised. Where one of them is no domain,
    /// nothing is changed.
    pub fn normalize(&mut self) -> (r: Result<(), Failure>)
        ensures
            r is Ok <==> normal_domains(texts(old(self).domains@)) is Some,
            r is Ok ==> Some(texts(final(self).domains@)) == normal_domains(
                texts(old(self).domains@),
            ),
            r matches Err(failure) ==> *final(self) == *old(self) && exists|i: int|
                {
                    &&& #[trigger] first_invalid(texts(old(self).domains@), i)
                    &&& failure@ == bad_domain_text(texts(old(self).domains@)[i])
                },
    {
        let ghost all = texts(self.domains@);
        let mut normalized: Vec<String> = Vec::new();
        let mut i: usize = 0;
        assert(texts(normalized@) =~= Seq::empty());
        while i < self.domains.len()
            invariant
                i <= self.domains@.len(),
                *self == *old(self),
                all == texts(self.domains@),
                normal_domains(all.take(i as int)) == Some(texts(normalized@)),
            decreases self.domains@.len() - i,
        {
            assert(all.take(i + 1).drop_last() =~= all.take(i as int));
            assert(all.take(i + 1).last() == self.domains@[i as int]@);
            let trimmed_domain: String = trim(self.domains[i].as_str());
            let domain: String = trim_end_matches(trimmed_domain.as_str(), '.');
            if domain.as_str().unicode_len() > 0 {
                match normalize_dns_name(domain.as_str()) {
                    None => {
                        assert(normal_domains(all.take(i + 1)) is None);
                        proof {
                            lemma_invalid_stays(all, i + 1);
                        }
                        assert(first_invalid(all, i as int));
                        return Err(
                            Failure::new(
                                joined(
                                    "sandbox_proxy.domains contains invalid domain ",
                                    quoted(domain.as_str()).as_str(),
                                ),
                            ),
                        );
                    },
                    Some(name) => {
                        if !contains_text(&normalized, name.as_str()) {
                            proof {
                                lemma_texts_push(normalized@, name);
                            }
                            normalized.push(name);
                        }
                    },
                }
            }
            i = i + 1;
        }
        assert(all.take(all.len() as int) =~= all);
        self.domains = normalized;
        Ok(())
    }
}

/// Where the posix backend is used, its store: the configured one, or the one
/// under the home path.
pub open spec fn configured_store(backend: BackendConfig) -> Seq<u8> {
    match backend.posix_fs {
        Some(posix_fs) => posix_fs.snapshot_store@,
        None => encode_utf8("$AENV_HOME/snapshot-store"@),
    }
}

/// The optional path of a dependency: resolved where it is set.
pub open spec fn override_resolved(
    home_path: Seq<u8>,
    config_dir: Seq<u8>,
    raw: Option<Seq<u8>>,
) -> Option<Seq<u8>> {
    match raw {
        Some(raw) => Some(resolved(home_path, config_dir, raw)),
        None => None,
    }
}

/// Every path of `after` is the resolved path of `before`.
pub open spec fn paths_resolved(before: AppConfig, after: AppConfig, config_dir: Seq<u8>) -> bool {
    let home = join(config_dir, before.home_path@);
    let runtime = resolved(home, config_dir, before.runtime_path@);
    &&& after.home_path@ == home
    &&& after.runtime_path@ == runtime
    &&& after.deps_path@ == resolved(home, config_dir, before.deps_path@)
    &&& path_option(after.firecracker.binary_path) == override_resolved(
        home,
        config_dir,
        path_option(before.firecracker.binary_path),
    )
    &&& path_option(after.kernel.image_path) == override_resolved(
        home,
        config_dir,
        path_option(before.kernel.image_path),
    )
    &&& path_option(after.tools.drive_path) == override_resolved(
        home,
        config_dir,
        path_option(before.tools.drive_path),
    )
    &&& path_option(after.firecracker.work_dir) == Some(
        resolved_or(
            home,
            config_dir,
            path_option(before.firecracker.work_dir),
            "firecracker-work"@,
        ),
    )
    &&& path_option(after.firecracker.serial_dir) == Some(
        resolved_or(home, config_dir, path_option(before.firecracker.serial_dir), "logs/serial"@),
    )
    &&& path_option(after.ublk.daemon_binary_path) == Some(
        resolved_or(
            home,
            config_dir,
            path_option(before.ublk.daemon_binary_path),
            "ublk/uvm-ublk-daemon"@,
        ),
    )
    &&& after.ublk.daemon_socket_path@ == runtime_resolved(
        home,
        runtime,
        config_dir,
        before.ublk.daemon_socket_path@,
    )
    &&& path_option(after.ublk.daemon_log_path) == Some(
        resolved_or(
            home,
            config_dir,
            path_option(before.ublk.daemon_log_path),
            "logs/ublk-daemon.log"@,
        ),
    )
    &&& after.ublk.overlaybd.global_config_path@ == resolved(
        home,
        config_dir,
        before.ublk.overlaybd.global_config_path@,
    )
    &&& after.image.cache.root_dir@ == resolved(home, config_dir, before.image.cache.root_dir@)
    &&& after.memory_snapshot.overlaybd_global_config_path@ == resolved(
        home,
        config_dir,
        before.memory_snapshot.overlaybd_global_config_path@,
    )
    &&& after.orchestrator.persisted_sandbox_store_path@ == resolved(
        home,
        config_dir,
        before.orchestrator.persisted_sandbox_store_path@,
    )
    &&& after.snapshot.local_cache_path@ == resolved(
        home,
        config_dir,
        before.snapshot.local_cache_path@,
    )
    &&& if before.snapshot.repository_backend == SnapshotRepositoryBackendKind::PosixFs {
        &&& after.backend.posix_fs is Some
        &&& after.backend.posix_fs->0.snapshot_store@ == resolved(
            home,
            config_dir,
            configured_store(before.backend),
        )
    } else {
        after.backend.posix_fs == before.backend.posix_fs
    }
    &&& after.p2p.store_dir@ == resolved(home, config_dir, before.p2p.store_dir@)
}

/// Besides its paths, the endpoint of the scheduler and the domains, `after` is
/// like `before`.
pub open spec fn rest_kept(before: AppConfig, after: AppConfig) -> bool {
    after == (AppConfig {
        home_path: after.home_path,
        runtime_path: after.runtime_path,
        deps_path: after.deps_path,
        firecracker: FirecrackerConfig {
            binary_path: after.firecracker.binary_path,
            work_dir: after.firecracker.work_dir,
            serial_dir: after.firecracker.serial_dir,
            ..before.firecracker
        },
        kernel: KernelConfig { image_path: after.kernel.image_path, ..before.kernel },
        tools: ToolsConfig { drive_path: after.tools.drive_path, ..before.tools },
        backend: BackendConfig { posix_fs: after.backend.posix_fs, ..before.backend },
        orchestrator: OrchestratorConfig {
            persisted_sandbox_store_path: after.orchestrator.persisted_sandbox_store_path,
            ..before.orchestrator
        },
        snapshot: SnapshotConfig {
            local_cache_path: after.snapshot.local_cache_path,
            ..before.snapshot
        },
        ublk: UblkTomlConfig {
            daemon_binary_path: after.ublk.daemon_binary_path,
            daemon_socket_path: after.ublk.daemon_socket_path,
            daemon_log_path: after.ublk.daemon_log_path,
            overlaybd: UblkOverlaybdTomlConfig {
                global_config_path: after.ublk.overlaybd.global_config_path,
                ..before.ublk.overlaybd
            },
            ..before.ublk
        },
        cluster: after.cluster,
        memory_snapshot: MemorySnapshotConfig {
            overlaybd_global_config_path: after.memory_snapshot.overlaybd_global_config_path,
            ..before.memory_snapshot
        },
        p2p: P2pConfig { store_dir: after.p2p.store_dir, ..before.p2p },
        image: ImageConfig {
            cache: ImageCacheConfig {
                root_dir: after.image.cache.root_dir,
                ..before.image.cache
            },
        },
        sandbox_proxy: after.sandbox_proxy,
        ..before
    })
}

impl AppConfig {
    fn normalize_dependency_override_paths(&mut self, config_dir: &FsPath)
        ensures
            path_option(final(self).firecracker.binary_path) == override_resolved(
                old(self).home_path@,
                config_dir@,
                path_option(old(self).firecracker.binary_path),
            ),
            path_option(final(self).kernel.image_path) == override_resolved(
                old(self).home_path@,
                config_dir@,
                path_option(old(self).kernel.image_path),
            ),
            path_option(final(self).tools.drive_path) == override_resolved(
                old(self).home_path@,
                config_dir@,
                path_option(old(self).tools.drive_path),
            ),
            *final(self) == (AppConfig {
                firecracker: FirecrackerConfig {
                    binary_path: final(self).firecracker.binary_path,
                    ..old(self).firecracker
                },
                kernel: KernelConfig {
                    image_path: final(self).kernel.image_path,
                    ..old(self).kernel
                },
                tools: ToolsConfig { drive_path: final(self).tools.drive_path, ..old(self).tools },
                ..*old(self)
            }),
    {
        let home_path: FsPath = self.home_path.clone();
        resolve_set_path(&mut self.firecracker.binary_path, &home_path, config_dir);
        resolve_set_path(&mut self.kernel.image_path, &home_path, config_dir);
        resolve_set_path(&mut self.tools.drive_path, &home_path, config_dir);
    }

    fn normalize_posix_store(&mut self, config_dir: &FsPath)
        ensures
            if old(self).snapshot.repository_backend == SnapshotRepositoryBackendKind::PosixFs {
                &&& final(self).backend.posix_fs is Some
                &&& final(self).backend.posix_fs->0.snapshot_store@ == resolved(
                    old(self).home_path@,
                    config_dir@,
                    configured_store(old(self).backend),
                )
            } else {
                final(self).backend.posix_fs == old(self).backend.posix_fs
            },
            *final(self) == (AppConfig {
                backend: BackendConfig {
                    posix_fs: final(self).backend.posix_fs,
                    ..old(self).backend
                },
                ..*old(self)
            }),
    {
        if self.snapshot.repository_backend == SnapshotRepositoryBackendKind::PosixFs {
            let mut posix_fs: PosixFsBackendConfig = match self.backend.posix_fs.take() {
                Some(posix_fs) => posix_fs,
                None => PosixFsBackendConfig::default(),
            };
            resolve_in_place(&mut posix_fs.snapshot_store, &self.home_path, config_dir);
            self.backend.posix_fs = Some(posix_fs);
        }
    }

    /// Resolves every path, drops a blank endpoint of the scheduler and brings
    /// the domains into their normal form. `config_dir` is the directory of the
    /// configuration file. The paths are resolved even where a domain is
    /// rejected.
    pub fn normalize(&mut self, config_dir: &FsPath) -> (r: Result<(), Failure>)
        ensures
            paths_resolved(*old(self), *final(self), config_dir@),
            rest_kept(*old(self), *final(self)),
            text_option(final(self).cluster.scheduler_endpoint) == nonblank(
                text_option(old(self).cluster.scheduler_endpoint),
            ),
            r is Ok <==> normal_domains(texts(old(self).sandbox_proxy.domains@)) is Some,
            r is Ok ==> Some(texts(final(self).sandbox_proxy.domains@)) == normal_domains(
                texts(old(self).sandbox_proxy.domains@),
            ),
            r matches Err(failure) ==> final(self).sandbox_proxy == old(self).sandbox_proxy
                && exists|i: int|
                {
                    &&& #[trigger] first_invalid(texts(old(self).sandbox_proxy.domains@), i)
                    &&& failure@ == bad_domain_text(texts(old(self).sandbox_proxy.domains@)[i])
                },
    {
        self.home_path = resolve_relative_to(config_dir, &self.home_path);
        self.runtime_path = resolve_path(&self.home_path, config_dir, &self.runtime_path);
        self.deps_path = resolve_path(&self.home_path, config_dir, &self.deps_path);
        self.normalize_dependency_override_paths(config_dir);
        resolve_optional_config_path_or(
            &mut self.firecracker.work_dir,
            &self.home_path,
            config_dir,
            "firecracker-work",
        );
        resolve_optional_config_path_or(
            &mut self.firecracker.serial_dir,
            &self.home_path,
            config_dir,
            "logs/serial",
        );
        resolve_optional_config_path_or(
            &mut self.ublk.daemon_binary_path,
            &self.home_path,
            config_dir,
            "ublk/uvm-ublk-daemon",
        );
        self.ublk.daemon_socket_path = resolve_runtime_path(
            &self.home_path,
            &self.runtime_path,
            config_dir,
            &self.ublk.daemon_socket_path,
        );
        resolve_optional_config_path_or(
            &mut self.ublk.daemon_log_path,
            &self.home_path,
            config_dir,
            "logs/ublk-daemon.log",
        );
        resolve_in_place(
            &mut self.ublk.overlaybd.global_config_path,
            &self.home_path,
            config_dir,
        );
        ImageConfig::normalize(&mut self.image, config_dir, &self.home_path);
        resolve_in_place(
            &mut self.memory_snapshot.overlaybd_global_config_path,
            &self.home_path,
            config_dir,
        );
        resolve_in_place(
            &mut self.orchestrator.persisted_sandbox_store_path,
            &self.home_path,
            config_dir,
        );
        resolve_in_place(&mut self.snapshot.local_cache_path, &self.home_path, config_dir);
        self.normalize_posix_store(config_dir);
        resolve_in_place(&mut self.p2p.store_dir, &self.home_path, config_dir);
        self.cluster.normalize();
        self.sandbox_proxy.normalize()
    }
}

} // verus!
