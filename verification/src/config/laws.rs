//! What holds of every normalized configuration.
use crate::config::network::{dns_name, is_dns_name, is_label, label_char};
use crate::config::normalize::{bare_domain, normal_domains, paths_resolved};
use crate::config::paths::{
    law_absolute_path_is_kept, law_resolved_paths_are_absolute, path_option, plain, resolved,
    resolved_or, runtime_resolved,
};
use crate::config::types::{AppConfig, SnapshotRepositoryBackendKind};
use crate::fs_path::{is_absolute, join};
use crate::text::{
    lemma_pieces_nonempty, lower, pieces, trim_end, trim_end_of, trim_start, trimmed,
};
use vstd::prelude::*;

verus! {

/// The characters of a text are those of its pieces and the separators.
proof fn lemma_name_chars(s: Seq<char>)
    requires
        forall|p: int, k: int|
            0 <= p < pieces(s, '.').len() && 0 <= k < pieces(s, '.')[p].len() ==> label_char(
                #[trigger] pieces(s, '.')[p][k],
            ),
    ensures
        forall|k: int| 0 <= k < s.len() ==> (#[trigger] s[k]) == '.' || label_char(s[k]),
    decreases s.len(),
{
    if s.len() > 0 {
        let rest = s.drop_last();
        let head = pieces(rest, '.');
        let all = pieces(s, '.');
        lemma_pieces_nonempty(rest, '.');
        assert forall|p: int, k: int|
            0 <= p < head.len() && 0 <= k < head[p].len() implies label_char(
            #[trigger] head[p][k],
        ) by {
            if p < head.len() - 1 || s.last() == '.' {
                assert(all[p] == head[p]);
                assert(label_char(all[p][k]));
            } else {
                assert(all[p] == head[p].push(s.last()));
                assert(all[p][k] == head[p][k]);
            }
        }
        lemma_name_chars(rest);
        if s.last() != '.' {
            let last = all.len() - 1;
            assert(all[last] == head.last().push(s.last()));
            assert(label_char(all[last][all[last].len() - 1]));
        }
        assert forall|k: int| 0 <= k < s.len() implies (#[trigger] s[k]) == '.' || label_char(
            s[k],
        ) by {
            if k < s.len() - 1 {
                assert(rest[k] == s[k]);
            }
        }
    }
}

/// A host name is its own normal form.
proof fn lemma_name_is_normal(name: Seq<char>)
    requires
        is_dns_name(name),
    ensures
        name.len() > 0,
        bare_domain(name) == name,
        dns_name(name) == Some(name),
{
    let labels = pieces(name, '.');
    lemma_pieces_nonempty(name, '.');
    if name.len() == 0 {
        assert(is_label(labels[0]));
    }
    assert forall|p: int, k: int|
        0 <= p < labels.len() && 0 <= k < labels[p].len() implies label_char(
        #[trigger] labels[p][k],
    ) by {
        assert(is_label(labels[p]));
    }
    lemma_name_chars(name);
    assert(name.last() != '.') by {
        if name.last() == '.' {
            assert(is_label(labels[labels.len() - 1]));
        }
    }
    assert(label_char(name[0]) || name[0] == '.');
    assert(label_char(name[name.len() - 1]) || name[name.len() - 1] == '.');
    assert(trim_start(name) == name);
    assert(trim_end(name) == name);
    assert(trim_end_of(name, '.') == name);
    assert forall|k: int| 0 <= k < name.len() implies lower(name)[k] == name[k] by {
        assert(label_char(name[k]) || name[k] == '.');
    }
    assert(lower(name) =~= name);
}

/// No domain occurs twice in the normal form, and each of them is a host name.
pub proof fn law_domains_are_distinct_names(domains: Seq<Seq<char>>)
    requires
        normal_domains(domains) is Some,
    ensures
        normal_domains(domains)->0.no_duplicates(),
        forall|k: int|
            0 <= k < normal_domains(domains)->0.len() ==> is_dns_name(
                #[trigger] normal_domains(domains)->0[k],
            ),
    decreases domains.len(),
{
    if domains.len() > 0 {
        law_domains_are_distinct_names(domains.drop_last());
        let seen = normal_domains(domains.drop_last())->0;
        let all = normal_domains(domains)->0;
        if all.len() != seen.len() {
            let name = all.last();
            assert(all =~= seen.push(name));
            assert forall|a: int, b: int|
                0 <= a < all.len() && 0 <= b < all.len() && a != b implies all[a] != all[b] by {
                if a == seen.len() {
                    assert(all[b] == seen[b]);
                    assert(seen.contains(seen[b]));
                } else if b == seen.len() {
                    assert(all[a] == seen[a]);
                    assert(seen.contains(seen[a]));
                }
            }
        }
    }
}

/// Domains in their normal form stay as they are.
pub proof fn law_domains_are_stable(domains: Seq<Seq<char>>)
    requires
        normal_domains(domains) is Some,
    ensures
        normal_domains(normal_domains(domains)->0) == normal_domains(domains),
{
    let names = normal_domains(domains)->0;
    law_domains_are_distinct_names(domains);
    lemma_names_stay(names, names.len() as int);
    assert(names.take(names.len() as int) =~= names);
}

proof fn lemma_names_stay(names: Seq<Seq<char>>, n: int)
    requires
        0 <= n <= names.len(),
        names.no_duplicates(),
        forall|k: int| 0 <= k < names.len() ==> is_dns_name(#[trigger] names[k]),
    ensures
        normal_domains(names.take(n)) == Some(names.take(n)),
    decreases n,
{
    let taken = names.take(n);
    if n == 0 {
        assert(taken =~= Seq::empty());
    } else {
        lemma_names_stay(names, n - 1);
        assert(taken.drop_last() =~= names.take(n - 1));
        assert(taken.last() == names[n - 1]);
        assert(is_dns_name(names[n - 1]));
        lemma_name_is_normal(names[n - 1]);
        let seen = names.take(n - 1);
        assert(!seen.contains(names[n - 1])) by {
            if seen.contains(names[n - 1]) {
                let k = choose|k: int| 0 <= k < seen.len() && seen[k] == names[n - 1];
                assert(names[k] == names[n - 1]);
            }
        }
        assert(seen.push(names[n - 1]) =~= taken);
    }
}

/// `name` is what `domain` stands for: the domain without the white space around
/// it and the dots at its end, in lower case.
pub open spec fn names(domain: Seq<char>, name: Seq<char>) -> bool {
    trim_end_of(trimmed(domain), '.').len() > 0 && name == lower(
        trim_end_of(trimmed(domain), '.'),
    )
}

/// The domains are accepted exactly when each of them is blank or names a host,
/// and then exactly the hosts that they name come out.
pub proof fn law_domains_are_those_configured(domains: Seq<Seq<char>>)
    ensures
        normal_domains(domains) is Some <==> forall|i: int, name: Seq<char>|
            0 <= i < domains.len() && #[trigger] names(domains[i], name) ==> is_dns_name(name),
        normal_domains(domains) is Some ==> forall|name: Seq<char>| #[trigger]
            normal_domains(domains)->0.contains(name) <==> exists|i: int|
                0 <= i < domains.len() && #[trigger] names(domains[i], name),
    decreases domains.len(),
{
    if domains.len() > 0 {
        let fewer = domains.drop_last();
        let last = domains.len() - 1;
        law_domains_are_those_configured(fewer);
        let bare = trim_end_of(trimmed(domains.last()), '.');
        if normal_domains(domains) is Some {
            assert forall|i: int, name: Seq<char>|
                0 <= i < domains.len() && #[trigger] names(domains[i], name) implies is_dns_name(
                name,
            ) by {
                if i < last {
                    assert(names(fewer[i], name));
                }
            }
            let seen = normal_domains(fewer)->0;
            let all = normal_domains(domains)->0;
            assert forall|name: Seq<char>| #[trigger] all.contains(name) <==> exists|i: int|
                0 <= i < domains.len() && #[trigger] names(domains[i], name) by {
                if all.contains(name) {
                    if seen.contains(name) {
                        let i = choose|i: int|
                            0 <= i < fewer.len() && #[trigger] names(fewer[i], name);
                        assert(names(domains[i], name));
                    } else {
                        let k = choose|k: int| 0 <= k < all.len() && all[k] == name;
                        assert(k == seen.len()) by {
                            if k < seen.len() {
                                assert(seen[k] == name);
                            }
                        }
                        assert(names(domains[last], name));
                    }
                }
                if exists|i: int| 0 <= i < domains.len() && #[trigger] names(domains[i], name) {
                    let i = choose|i: int|
                        0 <= i < domains.len() && #[trigger] names(domains[i], name);
                    if i < last {
                        assert(names(fewer[i], name));
                        assert(seen.contains(name));
                        let k = choose|k: int| 0 <= k < seen.len() && seen[k] == name;
                        assert(all[k] == name);
                    } else if !seen.contains(name) {
                        assert(all == seen.push(name));
                        assert(all[seen.len() as int] == name);
                    }
                }
            }
        } else if normal_domains(fewer) is None {
            let (i, name) = choose|i: int, name: Seq<char>|
                0 <= i < fewer.len() && #[trigger] names(fewer[i], name) && !is_dns_name(name);
            assert(names(domains[i], name));
        } else {
            assert(names(domains[last], lower(bare)));
        }
    }
}

/// The order of the domains is kept: what the first of them come to is the
/// beginning of what all of them come to.
pub proof fn law_domains_keep_their_order(domains: Seq<Seq<char>>, n: int)
    requires
        0 <= n <= domains.len(),
        normal_domains(domains) is Some,
    ensures
        normal_domains(domains.take(n)) is Some,
        normal_domains(domains.take(n))->0.is_prefix_of(normal_domains(domains)->0),
    decreases domains.len(),
{
    if n == domains.len() {
        assert(domains.take(n) =~= domains);
    } else {
        law_domains_keep_their_order(domains.drop_last(), n);
        assert(domains.drop_last().take(n) =~= domains.take(n));
        let seen = normal_domains(domains.drop_last())->0;
        let all = normal_domains(domains)->0;
        let head = normal_domains(domains.take(n))->0;
        assert(seen.is_prefix_of(all)) by {
            if all.len() != seen.len() {
                assert(all =~= seen.push(all.last()));
            }
        }
        assert(head =~= all.subrange(0, head.len() as int));
    }
}

/// Where `path` is set, it is absolute.
pub open spec fn absolute_if_set(path: Option<Seq<u8>>) -> bool {
    path matches Some(path) ==> is_absolute(path)
}

/// Every path of the configuration is absolute; those with a default are set.
pub open spec fn all_absolute(config: AppConfig) -> bool {
    &&& is_absolute(config.home_path@)
    &&& is_absolute(config.runtime_path@)
    &&& is_absolute(config.deps_path@)
    &&& absolute_if_set(path_option(config.firecracker.binary_path))
    &&& absolute_if_set(path_option(config.kernel.image_path))
    &&& absolute_if_set(path_option(config.tools.drive_path))
    &&& config.firecracker.work_dir is Some && is_absolute(config.firecracker.work_dir->0@)
    &&& config.firecracker.serial_dir is Some && is_absolute(config.firecracker.serial_dir->0@)
    &&& config.ublk.daemon_binary_path is Some && is_absolute(config.ublk.daemon_binary_path->0@)
    &&& is_absolute(config.ublk.daemon_socket_path@)
    &&& config.ublk.daemon_log_path is Some && is_absolute(config.ublk.daemon_log_path->0@)
    &&& is_absolute(config.ublk.overlaybd.global_config_path@)
    &&& is_absolute(config.image.cache.root_dir@)
    &&& is_absolute(config.memory_snapshot.overlaybd_global_config_path@)
    &&& is_absolute(config.orchestrator.persisted_sandbox_store_path@)
    &&& is_absolute(config.snapshot.local_cache_path@)
    &&& config.snapshot.repository_backend == SnapshotRepositoryBackendKind::PosixFs
        ==> config.backend.posix_fs is Some && is_absolute(
        config.backend.posix_fs->0.snapshot_store@,
    )
    &&& is_absolute(config.p2p.store_dir@)
}

/// A configuration from an absolute directory has only absolute paths after it
/// was normalized.
pub proof fn law_normalized_paths_are_absolute(
    before: AppConfig,
    after: AppConfig,
    config_dir: Seq<u8>,
)
    requires
        is_absolute(config_dir),
        paths_resolved(before, after, config_dir),
        after.snapshot.repository_backend == before.snapshot.repository_backend,
    ensures
        all_absolute(after),
{
    let home = join(config_dir, before.home_path@);
    let runtime = after.runtime_path@;
    assert forall|raw: Seq<u8>| is_absolute(#[trigger] resolved(home, config_dir, raw)) by {
        law_resolved_paths_are_absolute(home, runtime, config_dir, raw);
    }
    assert forall|raw: Seq<u8>|
        is_absolute(#[trigger] runtime_resolved(home, runtime, config_dir, raw)) by {
        law_resolved_paths_are_absolute(home, runtime, config_dir, raw);
    }
    assert forall|raw: Option<Seq<u8>>, default: Seq<char>|
        is_absolute(#[trigger] resolved_or(home, config_dir, raw, default)) by {
        lemma_resolved_or_absolute(home, config_dir, raw, default);
    }
}

proof fn lemma_resolved_or_absolute(
    home: Seq<u8>,
    config_dir: Seq<u8>,
    raw: Option<Seq<u8>>,
    default: Seq<char>,
)
    requires
        is_absolute(home),
        is_absolute(config_dir),
    ensures
        is_absolute(resolved_or(home, config_dir, raw, default)),
{
}

/// Where `path` is set, it has no placeholder.
pub open spec fn plain_if_set(path: Option<Seq<u8>>) -> bool {
    path matches Some(path) ==> plain(path)
}

/// No path of the configuration has a placeholder.
pub open spec fn all_plain(config: AppConfig) -> bool {
    &&& plain(config.home_path@)
    &&& plain(config.runtime_path@)
    &&& plain(config.deps_path@)
    &&& plain_if_set(path_option(config.firecracker.binary_path))
    &&& plain_if_set(path_option(config.kernel.image_path))
    &&& plain_if_set(path_option(config.tools.drive_path))
    &&& plain_if_set(path_option(config.firecracker.work_dir))
    &&& plain_if_set(path_option(config.firecracker.serial_dir))
    &&& plain_if_set(path_option(config.ublk.daemon_binary_path))
    &&& plain(config.ublk.daemon_socket_path@)
    &&& plain_if_set(path_option(config.ublk.daemon_log_path))
    &&& plain(config.ublk.overlaybd.global_config_path@)
    &&& plain(config.image.cache.root_dir@)
    &&& plain(config.memory_snapshot.overlaybd_global_config_path@)
    &&& plain(config.orchestrator.persisted_sandbox_store_path@)
    &&& plain(config.snapshot.local_cache_path@)
    &&& config.backend.posix_fs is Some ==> plain(config.backend.posix_fs->0.snapshot_store@)
    &&& plain(config.p2p.store_dir@)
}

/// The paths of two configurations are the same.
pub open spec fn same_paths(a: AppConfig, b: AppConfig) -> bool {
    &&& a.home_path@ == b.home_path@
    &&& a.runtime_path@ == b.runtime_path@
    &&& a.deps_path@ == b.deps_path@
    &&& path_option(a.firecracker.binary_path) == path_option(b.firecracker.binary_path)
    &&& path_option(a.kernel.image_path) == path_option(b.kernel.image_path)
    &&& path_option(a.tools.drive_path) == path_option(b.tools.drive_path)
    &&& path_option(a.firecracker.work_dir) == path_option(b.firecracker.work_dir)
    &&& path_option(a.firecracker.serial_dir) == path_option(b.firecracker.serial_dir)
    &&& path_option(a.ublk.daemon_binary_path) == path_option(b.ublk.daemon_binary_path)
    &&& a.ublk.daemon_socket_path@ == b.ublk.daemon_socket_path@
    &&& path_option(a.ublk.daemon_log_path) == path_option(b.ublk.daemon_log_path)
    &&& a.ublk.overlaybd.global_config_path@ == b.ublk.overlaybd.global_config_path@
    &&& a.image.cache.root_dir@ == b.image.cache.root_dir@
    &&& a.memory_snapshot.overlaybd_global_config_path@
        == b.memory_snapshot.overlaybd_global_config_path@
    &&& a.orchestrator.persisted_sandbox_store_path@
        == b.orchestrator.persisted_sandbox_store_path@
    &&& a.snapshot.local_cache_path@ == b.snapshot.local_cache_path@
    &&& a.p2p.store_dir@ == b.p2p.store_dir@
    &&& a.backend.posix_fs is Some ==> b.backend.posix_fs is Some
        && a.backend.posix_fs->0.snapshot_store@ == b.backend.posix_fs->0.snapshot_store@
}

/// A configuration with absolute paths and no placeholders keeps its paths, so
/// that normalizing it once more, from any directory, changes none of them.
pub proof fn law_absolute_configuration_is_kept(
    before: AppConfig,
    after: AppConfig,
    config_dir: Seq<u8>,
)
    requires
        all_absolute(before),
        all_plain(before),
        paths_resolved(before, after, config_dir),
    ensures
        same_paths(before, after),
{
    let home = before.home_path@;
    let runtime = before.runtime_path@;
    assert forall|raw: Seq<u8>| is_absolute(raw) && plain(raw) implies #[trigger] resolved(
        home,
        config_dir,
        raw,
    ) == raw by {
        law_absolute_path_is_kept(home, runtime, config_dir, raw);
    }
    assert forall|raw: Seq<u8>| is_absolute(raw) && plain(raw) implies #[trigger] runtime_resolved(
        home,
        runtime,
        config_dir,
        raw,
    ) == raw by {
        law_absolute_path_is_kept(home, runtime, config_dir, raw);
    }
}

} // verus!
