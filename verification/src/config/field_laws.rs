//! What normalizing does to each single value of a configuration.
use crate::config::normalize::{nonblank, paths_resolved, rest_kept};
use crate::config::paths::{
    HOME_PATH_PLACEHOLDER, law_absolute_path_is_kept, law_home_is_expanded, law_home_placeholder,
    law_home_placeholder_in_runtime_path, law_path_without_home, law_relative_path_is_joined,
    law_runtime_is_expanded, law_runtime_placeholder, names_home, path_option, plain, resolved,
};
use crate::config::types::{AppConfig, SnapshotRepositoryBackendKind};
use crate::fs_path::{is_absolute, join, join_text, lossy_text};
use crate::text::{has_part, is_white, occurs_at, replaced};
use crate::text_laws::{bare_of, law_trimmed};
use vstd::prelude::*;
use vstd::utf8::*;

verus! {

/// Every path that begins with the placeholder of the home path, and holds none
/// after it, becomes the home path followed by the rest, in whichever field of
/// the configuration it stands.
pub proof fn law_home_placeholder_in_every_path(
    before: AppConfig,
    after: AppConfig,
    config_dir: Seq<u8>,
    rest: Seq<char>,
)
    requires
        paths_resolved(before, after, config_dir),
        valid_utf8(after.home_path@),
        is_absolute(after.home_path@),
        !has_part(rest, HOME_PATH_PLACEHOLDER@),
    ensures
        before.runtime_path@ == encode_utf8("$AENV_HOME"@ + rest)
            ==> after.runtime_path@ == after.home_path@
            + encode_utf8(rest),
        before.deps_path@ == encode_utf8("$AENV_HOME"@ + rest)
            ==> after.deps_path@ == after.home_path@
            + encode_utf8(rest),
        before.ublk.overlaybd.global_config_path@ == encode_utf8("$AENV_HOME"@ + rest)
            ==> after.ublk.overlaybd.global_config_path@ == after.home_path@
            + encode_utf8(rest),
        before.image.cache.root_dir@ == encode_utf8("$AENV_HOME"@ + rest)
            ==> after.image.cache.root_dir@ == after.home_path@
            + encode_utf8(rest),
        before.memory_snapshot.overlaybd_global_config_path@ == encode_utf8("$AENV_HOME"@ + rest)
            ==> after.memory_snapshot.overlaybd_global_config_path@ == after.home_path@
            + encode_utf8(rest),
        before.orchestrator.persisted_sandbox_store_path@ == encode_utf8("$AENV_HOME"@ + rest)
            ==> after.orchestrator.persisted_sandbox_store_path@ == after.home_path@
            + encode_utf8(rest),
        before.snapshot.local_cache_path@ == encode_utf8("$AENV_HOME"@ + rest)
            ==> after.snapshot.local_cache_path@ == after.home_path@
            + encode_utf8(rest),
        before.p2p.store_dir@ == encode_utf8("$AENV_HOME"@ + rest)
            ==> after.p2p.store_dir@ == after.home_path@
            + encode_utf8(rest),
        path_option(before.firecracker.binary_path) == Some(encode_utf8("$AENV_HOME"@ + rest))
            ==> path_option(
            after.firecracker.binary_path,
        ) == Some(after.home_path@ + encode_utf8(rest)),
        path_option(before.kernel.image_path) == Some(encode_utf8("$AENV_HOME"@ + rest))
            ==> path_option(
            after.kernel.image_path,
        ) == Some(after.home_path@ + encode_utf8(rest)),
        path_option(before.tools.drive_path) == Some(encode_utf8("$AENV_HOME"@ + rest))
            ==> path_option(
            after.tools.drive_path,
        ) == Some(after.home_path@ + encode_utf8(rest)),
        path_option(before.firecracker.work_dir) == Some(encode_utf8("$AENV_HOME"@ + rest))
            ==> path_option(
            after.firecracker.work_dir,
        ) == Some(after.home_path@ + encode_utf8(rest)),
        path_option(before.firecracker.serial_dir) == Some(encode_utf8("$AENV_HOME"@ + rest))
            ==> path_option(
            after.firecracker.serial_dir,
        ) == Some(after.home_path@ + encode_utf8(rest)),
        path_option(before.ublk.daemon_binary_path) == Some(encode_utf8("$AENV_HOME"@ + rest))
            ==> path_option(
            after.ublk.daemon_binary_path,
        ) == Some(after.home_path@ + encode_utf8(rest)),
        path_option(before.ublk.daemon_log_path) == Some(encode_utf8("$AENV_HOME"@ + rest))
            ==> path_option(
            after.ublk.daemon_log_path,
        ) == Some(after.home_path@ + encode_utf8(rest)),
        before.ublk.daemon_socket_path@ == encode_utf8("$AENV_HOME"@ + rest) && !has_part(
            decode_utf8(after.home_path@) + rest,
            "$AENV_RUNTIME"@,
        ) ==> after.ublk.daemon_socket_path@ == after.home_path@ + encode_utf8(rest),
        before.snapshot.repository_backend == SnapshotRepositoryBackendKind::PosixFs
            && before.backend.posix_fs is Some && before.backend.posix_fs->0.snapshot_store@
            == encode_utf8("$AENV_HOME"@ + rest) ==> after.backend.posix_fs is Some
            && after.backend.posix_fs->0.snapshot_store@ == after.home_path@ + encode_utf8(rest),
{
    law_home_placeholder(after.home_path@, config_dir, rest);
    if !has_part(decode_utf8(after.home_path@) + rest, "$AENV_RUNTIME"@) {
        law_home_placeholder_in_runtime_path(
            after.home_path@,
            after.runtime_path@,
            config_dir,
            rest,
        );
    }
}

/// A socket path that begins with the placeholder of the runtime path, and holds
/// none after it, becomes the runtime path followed by the rest.
pub proof fn law_runtime_placeholder_in_socket_path(
    before: AppConfig,
    after: AppConfig,
    config_dir: Seq<u8>,
    rest: Seq<char>,
)
    requires
        paths_resolved(before, after, config_dir),
        valid_utf8(after.runtime_path@),
        is_absolute(after.runtime_path@),
        !has_part("$AENV_RUNTIME"@ + rest, "$AENV_HOME"@),
        !has_part(rest, "$AENV_RUNTIME"@),
        before.ublk.daemon_socket_path@ == encode_utf8("$AENV_RUNTIME"@ + rest),
    ensures
        after.ublk.daemon_socket_path@ == after.runtime_path@ + encode_utf8(rest),
{
    law_runtime_placeholder(after.home_path@, after.runtime_path@, config_dir, rest);
}

/// `after` is `before` where that is absolute, and else `before` seen from
/// `config_dir`, unless `before` names the home path.
pub open spec fn taken_from(config_dir: Seq<u8>, before: Seq<u8>, after: Seq<u8>) -> bool {
    !names_home(before) ==> (is_absolute(before) ==> after == before) && (!is_absolute(before)
        ==> after == join(config_dir, before))
}

/// Each path that does not name the home path is kept where it is absolute, and else taken
/// relative to the directory of the configuration, in whichever field it stands.
pub proof fn law_every_path_is_taken_from_the_directory(
    before: AppConfig,
    after: AppConfig,
    config_dir: Seq<u8>,
)
    requires
        paths_resolved(before, after, config_dir),
    ensures
        is_absolute(before.home_path@) ==> after.home_path@ == before.home_path@,
        !is_absolute(before.home_path@) ==> after.home_path@ == join(
            config_dir,
            before.home_path@,
        ),
        taken_from(config_dir, before.runtime_path@, after.runtime_path@),
        taken_from(config_dir, before.deps_path@, after.deps_path@),
        taken_from(config_dir, before.ublk.overlaybd.global_config_path@, after.ublk.overlaybd.global_config_path@),
        taken_from(config_dir, before.image.cache.root_dir@, after.image.cache.root_dir@),
        taken_from(config_dir, before.memory_snapshot.overlaybd_global_config_path@, after.memory_snapshot.overlaybd_global_config_path@),
        taken_from(config_dir, before.orchestrator.persisted_sandbox_store_path@, after.orchestrator.persisted_sandbox_store_path@),
        taken_from(config_dir, before.snapshot.local_cache_path@, after.snapshot.local_cache_path@),
        taken_from(config_dir, before.p2p.store_dir@, after.p2p.store_dir@),
        plain(before.ublk.daemon_socket_path@) ==> taken_from(
            config_dir,
            before.ublk.daemon_socket_path@,
            after.ublk.daemon_socket_path@,
        ),
        before.firecracker.binary_path matches Some(raw)
            ==> (after.firecracker.binary_path matches Some(path)
            && taken_from(config_dir, raw@, path@)),
        before.kernel.image_path matches Some(raw) ==> (after.kernel.image_path matches Some(path)
            && taken_from(config_dir, raw@, path@)),
        before.tools.drive_path matches Some(raw) ==> (after.tools.drive_path matches Some(path)
            && taken_from(config_dir, raw@, path@)),
        before.firecracker.work_dir matches Some(raw)
            ==> (after.firecracker.work_dir matches Some(path)
            && taken_from(config_dir, raw@, path@)),
        before.firecracker.serial_dir matches Some(raw)
            ==> (after.firecracker.serial_dir matches Some(path)
            && taken_from(config_dir, raw@, path@)),
        before.ublk.daemon_binary_path matches Some(raw)
            ==> (after.ublk.daemon_binary_path matches Some(path)
            && taken_from(config_dir, raw@, path@)),
        before.ublk.daemon_log_path matches Some(raw)
            ==> (after.ublk.daemon_log_path matches Some(path)
            && taken_from(config_dir, raw@, path@)),
        before.snapshot.repository_backend == SnapshotRepositoryBackendKind::PosixFs
            && before.backend.posix_fs is Some ==> after.backend.posix_fs is Some && taken_from(
            config_dir,
            before.backend.posix_fs->0.snapshot_store@,
            after.backend.posix_fs->0.snapshot_store@,
        ),
{
    let home = after.home_path@;
    let runtime = after.runtime_path@;
    assert forall|raw: Seq<u8>| !names_home(raw) implies #[trigger] resolved(
        home,
        config_dir,
        raw,
    ) == join(config_dir, raw) by {
        law_path_without_home(home, config_dir, raw);
    }
    let socket = before.ublk.daemon_socket_path@;
    if plain(socket) {
        if is_absolute(socket) {
            law_absolute_path_is_kept(home, runtime, config_dir, socket);
        } else {
            law_relative_path_is_joined(home, runtime, config_dir, socket);
        }
    }
}

/// A path that is not set gets its place under the home path, where it has one,
/// and else stays unset; so does the snapshot store, where snapshots are kept in
/// the file system.
pub proof fn law_unset_paths_get_their_defaults(
    before: AppConfig,
    after: AppConfig,
    config_dir: Seq<u8>,
)
    requires
        paths_resolved(before, after, config_dir),
    ensures
        before.firecracker.work_dir is None ==> (after.firecracker.work_dir matches Some(path)
            && path@ == join_text(after.home_path@, "firecracker-work"@)),
        before.firecracker.serial_dir is None ==> (after.firecracker.serial_dir matches Some(path)
            && path@ == join_text(after.home_path@, "logs/serial"@)),
        before.ublk.daemon_binary_path is None ==> (after.ublk.daemon_binary_path matches Some(path)
            && path@ == join_text(after.home_path@, "ublk/uvm-ublk-daemon"@)),
        before.ublk.daemon_log_path is None ==> (after.ublk.daemon_log_path matches Some(path)
            && path@ == join_text(after.home_path@, "logs/ublk-daemon.log"@)),
        before.firecracker.binary_path is None <==> after.firecracker.binary_path is None,
        before.kernel.image_path is None <==> after.kernel.image_path is None,
        before.tools.drive_path is None <==> after.tools.drive_path is None,
        before.snapshot.repository_backend == SnapshotRepositoryBackendKind::PosixFs
            && before.backend.posix_fs is None && valid_utf8(after.home_path@) && is_absolute(
            after.home_path@,
        ) ==> (after.backend.posix_fs matches Some(store) && store.snapshot_store@
            == after.home_path@ + encode_utf8("/snapshot-store"@)),
        before.snapshot.repository_backend != SnapshotRepositoryBackendKind::PosixFs
            ==> after.backend.posix_fs == before.backend.posix_fs,
{
    if valid_utf8(after.home_path@) && is_absolute(after.home_path@) {
        let rest = "/snapshot-store"@;
        reveal_strlit("/snapshot-store");
        reveal_strlit("$AENV_HOME");
        reveal_strlit("$AENV_HOME/snapshot-store");
        assert("$AENV_HOME/snapshot-store"@ =~= HOME_PATH_PLACEHOLDER@ + rest);
        assert(!has_part(rest, HOME_PATH_PLACEHOLDER@)) by {
            if has_part(rest, HOME_PATH_PLACEHOLDER@) {
                let i = choose|i: int|
                    occurs_at(rest, HOME_PATH_PLACEHOLDER@, i);
                assert(rest.subrange(i, i + HOME_PATH_PLACEHOLDER@.len())[0] == rest[i]);
            }
        }
        law_home_placeholder(after.home_path@, config_dir, rest);
    }
}

/// Normalizing changes paths, the endpoint of the scheduler and the domains, and
/// no other value.
pub proof fn law_normalizing_keeps_the_rest(before: AppConfig, after: AppConfig)
    requires
        rest_kept(before, after),
    ensures
        after.virtualization_mode == before.virtualization_mode,
        after.firecracker.boot_args == before.firecracker.boot_args,
        after.firecracker.allowed_extra_boot_args_prefixes == before.firecracker.allowed_extra_boot_args_prefixes,
        after.firecracker.socket_timeout_secs == before.firecracker.socket_timeout_secs,
        after.firecracker.socket_poll_ms == before.firecracker.socket_poll_ms,
        after.firecracker.version == before.firecracker.version,
        after.firecracker.url == before.firecracker.url,
        after.firecracker.log_level == before.firecracker.log_level,
        after.kernel.version == before.kernel.version,
        after.kernel.url == before.kernel.url,
        after.tools.version == before.tools.version,
        after.tools.url == before.tools.url,
        after.tools.control_plane_port == before.tools.control_plane_port,
        after.overlaybd == before.overlaybd,
        after.machine == before.machine,
        after.backend.oss == before.backend.oss,
        after.envd == before.envd,
        after.orchestrator.auto_evict_interval_ms == before.orchestrator.auto_evict_interval_ms,
        after.orchestrator.default_sandbox_timeout_secs == before.orchestrator.default_sandbox_timeout_secs,
        after.orchestrator.auto_resume_min_sandbox_timeout_secs == before.orchestrator.auto_resume_min_sandbox_timeout_secs,
        after.snapshot.repository_backend == before.snapshot.repository_backend,
        after.snapshot.p2p_enabled == before.snapshot.p2p_enabled,
        after.snapshot.image_publish == before.snapshot.image_publish,
        after.ublk.enabled == before.ublk.enabled,
        after.ublk.daemon_metrics_listen_addr == before.ublk.daemon_metrics_listen_addr,
        after.ublk.device_type == before.ublk.device_type,
        after.ublk.overlaybd.read_only == before.ublk.overlaybd.read_only,
        after.ublk.overlaybd.runtime_upper_mode == before.ublk.overlaybd.runtime_upper_mode,
        after.ublk.overlaybd.allow_shrink == before.ublk.overlaybd.allow_shrink,
        after.ublk.overlaybd.resize_timeout_secs == before.ublk.overlaybd.resize_timeout_secs,
        after.ublk.overlaybd.download_enable == before.ublk.overlaybd.download_enable,
        after.ublk.overlaybd.p2p_lookup_timeout_ms == before.ublk.overlaybd.p2p_lookup_timeout_ms,
        after.ublk.overlaybd.p2p_fetch_range_timeout_ms == before.ublk.overlaybd.p2p_fetch_range_timeout_ms,
        after.observability == before.observability,
        after.node_identity == before.node_identity,
        after.memory_snapshot.direct_overlaybd == before.memory_snapshot.direct_overlaybd,
        after.memory_snapshot.compression_enabled == before.memory_snapshot.compression_enabled,
        after.memory_snapshot.compression_algorithm == before.memory_snapshot.compression_algorithm,
        after.memory_snapshot.compression_workers == before.memory_snapshot.compression_workers,
        after.memory_snapshot.background_download == before.memory_snapshot.background_download,
        after.pool == before.pool,
        after.p2p.enabled == before.p2p.enabled,
        after.p2p.transport == before.p2p.transport,
        after.p2p.listen_addr == before.p2p.listen_addr,
        after.p2p.lookup_timeout_ms == before.p2p.lookup_timeout_ms,
        after.p2p.fetch_timeout_ms == before.p2p.fetch_timeout_ms,
        after.p2p.peer_discovery_refresh_interval_secs == before.p2p.peer_discovery_refresh_interval_secs,
        after.image.cache.remote_blocks == before.image.cache.remote_blocks,
        after.image.cache.gc == before.image.cache.gc,
        after.network == before.network,
        after.custom_extension == before.custom_extension,
{
}

/// Wherever the placeholder of the home path stands first in a path, the home path
/// takes its place, in whichever field the path stands; what is before it stays,
/// what is behind it is treated alike, and the whole is seen from the directory of
/// the configuration.
pub proof fn law_every_path_is_expanded(
    before: AppConfig,
    after: AppConfig,
    config_dir: Seq<u8>,
    head: Seq<char>,
    rest: Seq<char>,
)
    requires
        paths_resolved(before, after, config_dir),
        forall|k: int| 0 <= k < head.len() ==> #[trigger] head[k] != '$',
    ensures
        ({
            let home = lossy_text(after.home_path@);
            let raw = encode_utf8(head + "$AENV_HOME"@ + rest);
            let path = join(
                config_dir,
                encode_utf8(head + home + replaced(rest, "$AENV_HOME"@, home)),
            );
            &&& before.runtime_path@ == raw ==> after.runtime_path@ == path
            &&& before.deps_path@ == raw ==> after.deps_path@ == path
            &&& before.ublk.overlaybd.global_config_path@ == raw
                ==> after.ublk.overlaybd.global_config_path@ == path
            &&& before.image.cache.root_dir@ == raw ==> after.image.cache.root_dir@ == path
            &&& before.memory_snapshot.overlaybd_global_config_path@ == raw
                ==> after.memory_snapshot.overlaybd_global_config_path@ == path
            &&& before.orchestrator.persisted_sandbox_store_path@ == raw
                ==> after.orchestrator.persisted_sandbox_store_path@ == path
            &&& before.snapshot.local_cache_path@ == raw
                ==> after.snapshot.local_cache_path@ == path
            &&& before.p2p.store_dir@ == raw ==> after.p2p.store_dir@ == path
            &&& path_option(before.firecracker.binary_path) == Some(raw) ==> path_option(
                after.firecracker.binary_path,
            ) == Some(path)
            &&& path_option(before.kernel.image_path) == Some(raw) ==> path_option(
                after.kernel.image_path,
            ) == Some(path)
            &&& path_option(before.tools.drive_path) == Some(raw) ==> path_option(
                after.tools.drive_path,
            ) == Some(path)
            &&& path_option(before.firecracker.work_dir) == Some(raw) ==> path_option(
                after.firecracker.work_dir,
            ) == Some(path)
            &&& path_option(before.firecracker.serial_dir) == Some(raw) ==> path_option(
                after.firecracker.serial_dir,
            ) == Some(path)
            &&& path_option(before.ublk.daemon_binary_path) == Some(raw) ==> path_option(
                after.ublk.daemon_binary_path,
            ) == Some(path)
            &&& path_option(before.ublk.daemon_log_path) == Some(raw) ==> path_option(
                after.ublk.daemon_log_path,
            ) == Some(path)
            &&& before.snapshot.repository_backend == SnapshotRepositoryBackendKind::PosixFs
                && before.backend.posix_fs is Some && before.backend.posix_fs->0.snapshot_store@
                == raw ==> after.backend.posix_fs is Some
                && after.backend.posix_fs->0.snapshot_store@ == path
            &&& before.ublk.daemon_socket_path@ == raw ==> after.ublk.daemon_socket_path@ == join(
                config_dir,
                encode_utf8(
                    replaced(
                        head + home + replaced(rest, "$AENV_HOME"@, home),
                        "$AENV_RUNTIME"@,
                        lossy_text(after.runtime_path@),
                    ),
                ),
            )
        }),
{
    law_home_is_expanded(after.home_path@, after.runtime_path@, config_dir, head, rest);
}

/// A socket path that does not name the home path has the runtime path in place of
/// the first placeholder for it, and what is behind that is treated alike.
pub proof fn law_socket_path_is_expanded(
    before: AppConfig,
    after: AppConfig,
    config_dir: Seq<u8>,
    head: Seq<char>,
    rest: Seq<char>,
)
    requires
        paths_resolved(before, after, config_dir),
        forall|k: int| 0 <= k < head.len() ==> #[trigger] head[k] != '$',
        !has_part(head + "$AENV_RUNTIME"@ + rest, "$AENV_HOME"@),
        before.ublk.daemon_socket_path@ == encode_utf8(head + "$AENV_RUNTIME"@ + rest),
    ensures
        after.ublk.daemon_socket_path@ == join(
            config_dir,
            encode_utf8(
                head + lossy_text(after.runtime_path@) + replaced(
                    rest,
                    "$AENV_RUNTIME"@,
                    lossy_text(after.runtime_path@),
                ),
            ),
        ),
{
    law_runtime_is_expanded(after.home_path@, after.runtime_path@, config_dir, head, rest);
}

/// The endpoint of the scheduler loses the white space around it, and a blank one
/// is dropped.
pub proof fn law_scheduler_endpoint(before: Option<Seq<char>>, after: Option<Seq<char>>)
    requires
        after == nonblank(before),
    ensures
        before is None ==> after is None,
        before matches Some(text) ==> (after is None <==> forall|k: int|
            0 <= k < text.len() ==> is_white(#[trigger] text[k])),
        after matches Some(text) ==> text.len() > 0 && bare_of(before->0, text),
{
    if before is Some {
        law_trimmed(before->0);
    }
}

} // verus!
