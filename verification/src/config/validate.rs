//! Which configurations are acceptable.
use crate::config::image::ResolvedImageCacheConfig;
use crate::config::network::{NetworkConfig, all_cidrs, bad_cidr_text, is_cidr};
use crate::config::paths::path_option;
use crate::config::types::{AppConfig, MemorySnapshotBackgroundDownloadConfig, PoolTomlConfig};
use crate::daemon::warm_pool::PoolConfig;
use crate::failure::Failure;
use crate::fs_path::{FsPath, components, join_text, lexical, lists_eq};
use crate::text::{decimal, decimal_text, joined, joined3};
use vstd::prelude::*;

verus! {

/// The warm pool of virtual machine monitors.
#[derive(Debug, Clone, Copy, PartialEq, Eq, Structural)]
pub struct ResolvedFirecrackerPoolConfig {
    pub pool: PoolConfig,
    pub fill_concurrency: usize,
}

/// The greatest block of a background download.
pub const MAX_BLOCK_SIZE: u64 = 0x400_0000;

/// The most blocks that one layer downloads at a time.
pub const MAX_CONCURRENCY: usize = 16;

/// The most memory that the download of one layer takes.
pub const MAX_SCRATCH_BYTES: u64 = 0x1000_0000;

/// The most blocks in flight on a node.
pub const MAX_INFLIGHT_BLOCKS: usize = 128;

/// The most memory that all downloads on a node take.
pub const MAX_GLOBAL_SCRATCH_BYTES: u64 = 0x8000_0000;

/// The first of two rejections.
pub open spec fn first_of(a: Option<Seq<char>>, b: Option<Seq<char>>) -> Option<Seq<char>> {
    if a is Some {
        a
    } else {
        b
    }
}

/// `r` accepts where there is no rejection, and else fails with its text.
pub open spec fn follows(r: Result<(), Failure>, rejection: Option<Seq<char>>) -> bool {
    match r {
        Ok(()) => rejection is None,
        Err(failure) => rejection == Some(failure@),
    }
}

/// Why the watermarks of the pool `name` are not acceptable, if they are not.
pub open spec fn pool_rejection(name: Seq<char>, pool: PoolConfig) -> Option<Seq<char>> {
    if pool.low_watermark > pool.high_watermark {
        Some(
            "invalid "@ + name + " pool config: low_watermark ("@ + decimal(
                pool.low_watermark as nat,
            ) + ") must be <= high_watermark ("@ + decimal(pool.high_watermark as nat) + ")"@,
        )
    } else {
        None
    }
}

impl PoolTomlConfig {
    /// The low watermark of a pool cannot be above the high one.
    pub fn validate(name: &str, pool: &PoolConfig) -> (r: Result<(), Failure>)
        ensures
            follows(r, pool_rejection(name@, *pool)),
            r is Ok <==> pool.low_watermark <= pool.high_watermark,
    {
        if pool.low_watermark > pool.high_watermark {
            let head: String = joined3("invalid ", name, " pool config: low_watermark (");
            let low: String = joined3(
                head.as_str(),
                decimal_text(pool.low_watermark as u64).as_str(),
                ") must be <= high_watermark (",
            );
            return Err(
                Failure::new(
                    joined3(
                        low.as_str(),
                        decimal_text(pool.high_watermark as u64).as_str(),
                        ")",
                    ),
                ),
            );
        }
        Ok(())
    }
}

/// Why a background download is not acceptable, if it is not: its block size
/// and its numbers of blocks are bounded, and so is the memory that they take
/// together.
pub open spec fn download_rejection(cfg: MemorySnapshotBackgroundDownloadConfig) -> Option<
    Seq<char>,
> {
    if cfg.concurrency == 0 {
        Some("memory_snapshot.background_download.concurrency must be > 0"@)
    } else if cfg.concurrency > MAX_CONCURRENCY {
        Some(
            "memory_snapshot.background_download.concurrency must be <= "@ + decimal(
                MAX_CONCURRENCY as nat,
            ),
        )
    } else if cfg.block_size > MAX_BLOCK_SIZE {
        Some(
            "memory_snapshot.background_download.block_size must be <= "@ + decimal(
                MAX_BLOCK_SIZE as nat,
            ),
        )
    } else if cfg.block_size * cfg.concurrency > MAX_SCRATCH_BYTES {
        Some(
            "memory_snapshot.background_download block_size * concurrency must be <= "@ + decimal(
                MAX_SCRATCH_BYTES as nat,
            ) + " bytes"@,
        )
    } else if cfg.max_inflight_blocks == 0 {
        Some("memory_snapshot.background_download.max_inflight_blocks must be > 0"@)
    } else if cfg.max_inflight_blocks > MAX_INFLIGHT_BLOCKS {
        Some(
            "memory_snapshot.background_download.max_inflight_blocks must be <= "@ + decimal(
                MAX_INFLIGHT_BLOCKS as nat,
            ),
        )
    } else if cfg.block_size * cfg.max_inflight_blocks > MAX_GLOBAL_SCRATCH_BYTES {
        Some(
            "memory_snapshot.background_download block_size * max_inflight_blocks must be <= "@
                + decimal(MAX_GLOBAL_SCRATCH_BYTES as nat) + " bytes"@,
        )
    } else if cfg.delay < 0 {
        Some("memory_snapshot.background_download.delay must be >= 0"@)
    } else if cfg.try_cnt < 1 {
        Some("memory_snapshot.background_download.try_cnt must be >= 1"@)
    } else {
        None
    }
}

/// The canonical paths of the two global configurations, where the file system
/// has them.
#[derive(Debug)]
pub struct CanonicalPaths {
    pub rootfs: Option<FsPath>,
    pub memory: Option<FsPath>,
}

/// Whether two paths name one file: they do so by their spelling, or the file
/// system gives them the same canonical path.
pub open spec fn same_file(
    a: Seq<u8>,
    b: Seq<u8>,
    canonical_a: Option<Seq<u8>>,
    canonical_b: Option<Seq<u8>>,
) -> bool {
    ||| lexical(components(a)) == lexical(components(b))
    ||| canonical_a is Some && canonical_b is Some && components(canonical_a->0) == components(
        canonical_b->0,
    )
}

/// The text of the failure for two global configurations in one file.
pub open spec fn same_file_text() -> Seq<char> {
    "ublk.overlaybd.global_config_path and memory_snapshot.overlaybd_global_config_path must be different"@
}

impl AppConfig {
    /// The warm pool of networks.
    pub open spec fn network_pool(self) -> PoolConfig {
        PoolConfig {
            low_watermark: self.pool.low_watermark,
            high_watermark: self.pool.high_watermark,
            maintenance_enabled: self.pool.network.enabled && self.pool.network.maintenance_enabled,
            startup_prewarm: self.pool.network.startup_prewarm,
        }
    }

    /// The warm pool of block devices, where there is one. It is filled when
    /// devices are asked for, never in the background.
    pub open spec fn block_pool(self) -> Option<PoolConfig> {
        if self.pool.block.enabled {
            Some(
                PoolConfig {
                    low_watermark: self.pool.low_watermark,
                    high_watermark: self.pool.high_watermark,
                    maintenance_enabled: false,
                    startup_prewarm: self.pool.block.startup_prewarm,
                },
            )
        } else {
            None
        }
    }

    /// The warm pool of virtual machine monitors, where there is one.
    pub open spec fn firecracker_pool(self) -> Option<ResolvedFirecrackerPoolConfig> {
        if self.pool.firecracker.enabled {
            Some(
                ResolvedFirecrackerPoolConfig {
                    pool: PoolConfig {
                        low_watermark: self.pool.low_watermark,
                        high_watermark: self.pool.high_watermark,
                        maintenance_enabled: self.pool.firecracker.maintenance_enabled,
                        startup_prewarm: self.pool.firecracker.startup_prewarm,
                    },
                    fill_concurrency: self.pool.firecracker.fill_concurrency,
                },
            )
        } else {
            None
        }
    }

    /// The image cache with its directories worked out.
    pub fn image_cache_layout(&self) -> (r: ResolvedImageCacheConfig)
        ensures
            r.remote_blocks_dir@ == join_text(self.image.cache.root_dir@, "remote-blocks"@),
            r.remote_blocks_size_gb == self.image.cache.remote_blocks.max_size_gb,
    {
        self.image.cache.layout()
    }

    /// The warm pool of networks.
    pub fn network_pool_config(&self) -> (r: PoolConfig)
        ensures
            r == self.network_pool(),
            r.low_watermark == self.pool.low_watermark,
            r.high_watermark == self.pool.high_watermark,
            r.maintenance_enabled <==> self.pool.network.enabled
                && self.pool.network.maintenance_enabled,
            r.startup_prewarm == self.pool.network.startup_prewarm,
    {
        PoolConfig {
            low_watermark: self.pool.low_watermark,
            high_watermark: self.pool.high_watermark,
            maintenance_enabled: self.pool.network.enabled && self.pool.network.maintenance_enabled,
            startup_prewarm: self.pool.network.startup_prewarm,
        }
    }

    /// The warm pool of block devices, where there is one.
    pub fn block_pool_config(&self) -> (r: Option<PoolConfig>)
        ensures
            r == self.block_pool(),
            r is Some <==> self.pool.block.enabled,
            r matches Some(pool) ==> {
                &&& pool.low_watermark == self.pool.low_watermark
                &&& pool.high_watermark == self.pool.high_watermark
                &&& !pool.maintenance_enabled
                &&& pool.startup_prewarm == self.pool.block.startup_prewarm
            },
    {
        if !self.pool.block.enabled {
            return None;
        }
        Some(
            PoolConfig {
                low_watermark: self.pool.low_watermark,
                high_watermark: self.pool.high_watermark,
                maintenance_enabled: false,
                startup_prewarm: self.pool.block.startup_prewarm,
            },
        )
    }

    /// The warm pool of virtual machine monitors, where there is one.
    pub fn firecracker_pool_config(&self) -> (r: Option<ResolvedFirecrackerPoolConfig>)
        ensures
            r == self.firecracker_pool(),
            r is Some <==> self.pool.firecracker.enabled,
            r matches Some(resolved) ==> {
                &&& resolved.pool.low_watermark == self.pool.low_watermark
                &&& resolved.pool.high_watermark == self.pool.high_watermark
                &&& resolved.pool.maintenance_enabled == self.pool.firecracker.maintenance_enabled
                &&& resolved.pool.startup_prewarm == self.pool.firecracker.startup_prewarm
                &&& resolved.fill_concurrency == self.pool.firecracker.fill_concurrency
            },
    {
        if !self.pool.firecracker.enabled {
            return None;
        }
        Some(
            ResolvedFirecrackerPoolConfig {
                pool: PoolConfig {
                    low_watermark: self.pool.low_watermark,
                    high_watermark: self.pool.high_watermark,
                    maintenance_enabled: self.pool.firecracker.maintenance_enabled,
                    startup_prewarm: self.pool.firecracker.startup_prewarm,
                },
                fill_concurrency: self.pool.firecracker.fill_concurrency,
            },
        )
    }

    /// Why the warm pools are not acceptable, if they are not. The pool of
    /// networks counts only where it is filled in the background, the others
    /// only where they are enabled.
    pub open spec fn pools_rejection(self) -> Option<Seq<char>> {
        first_of(
            if self.network_pool().maintenance_enabled {
                pool_rejection("network"@, self.network_pool())
            } else {
                None
            },
            first_of(
                match self.block_pool() {
                    Some(pool) => pool_rejection("block"@, pool),
                    None => None,
                },
                match self.firecracker_pool() {
                    Some(firecracker) => first_of(
                        pool_rejection("firecracker"@, firecracker.pool),
                        if firecracker.fill_concurrency == 0 {
                            Some(
                                "invalid firecracker pool config: fill_concurrency must be > 0"@,
                            )
                        } else {
                            None
                        },
                    ),
                    None => None,
                },
            ),
        )
    }

    /// Checks the warm pools.
    pub fn validate_pool_config(&self) -> (r: Result<(), Failure>)
        ensures
            follows(r, self.pools_rejection()),
            r is Ok <==> pools_in_order(*self),
    {
        let network: PoolConfig = self.network_pool_config();
        if network.maintenance_enabled {
            if let Err(failure) = PoolTomlConfig::validate("network", &network) {
                return Err(failure);
            }
        }
        if let Some(block) = self.block_pool_config() {
            if let Err(failure) = PoolTomlConfig::validate("block", &block) {
                return Err(failure);
            }
        }
        if let Some(firecracker) = self.firecracker_pool_config() {
            if let Err(failure) = PoolTomlConfig::validate("firecracker", &firecracker.pool) {
                return Err(failure);
            }
            if firecracker.fill_concurrency == 0 {
                return Err(
                    Failure::new(
                        "invalid firecracker pool config: fill_concurrency must be > 0".to_owned(),
                    ),
                );
            }
        }
        Ok(())
    }

    /// Checks the background download of memory snapshots.
    pub fn validate_memory_snapshot_background_download(&self) -> (r: Result<(), Failure>)
        ensures
            follows(r, download_rejection(self.memory_snapshot.background_download)),
            r is Ok <==> download_in_bounds(self.memory_snapshot.background_download),
    {
        let cfg = &self.memory_snapshot.background_download;
        if cfg.concurrency == 0 {
            return Err(
                Failure::new(
                    "memory_snapshot.background_download.concurrency must be > 0".to_owned(),
                ),
            );
        }
        if cfg.concurrency > MAX_CONCURRENCY {
            return Err(
                Failure::new(
                    joined(
                        "memory_snapshot.background_download.concurrency must be <= ",
                        decimal_text(MAX_CONCURRENCY as u64).as_str(),
                    ),
                ),
            );
        }
        let block_size: u64 = cfg.block_size as u64;
        if block_size > MAX_BLOCK_SIZE {
            return Err(
                Failure::new(
                    joined(
                        "memory_snapshot.background_download.block_size must be <= ",
                        decimal_text(MAX_BLOCK_SIZE).as_str(),
                    ),
                ),
            );
        }
        let concurrency: u64 = cfg.concurrency as u64;
        assert(block_size * concurrency <= 0x400_0000 * 16) by (nonlinear_arith)
            requires
                block_size <= 0x400_0000,
                concurrency <= 16,
        ;
        if block_size * concurrency > MAX_SCRATCH_BYTES {
            return Err(
                Failure::new(
                    joined3(
                        "memory_snapshot.background_download block_size * concurrency must be <= ",
                        decimal_text(MAX_SCRATCH_BYTES).as_str(),
                        " bytes",
                    ),
                ),
            );
        }
        if cfg.max_inflight_blocks == 0 {
            return Err(
                Failure::new(
                    "memory_snapshot.background_download.max_inflight_blocks must be > 0".to_owned(),
                ),
            );
        }
        if cfg.max_inflight_blocks > MAX_INFLIGHT_BLOCKS {
            return Err(
                Failure::new(
                    joined(
                        "memory_snapshot.background_download.max_inflight_blocks must be <= ",
                        decimal_text(MAX_INFLIGHT_BLOCKS as u64).as_str(),
                    ),
                ),
            );
        }
        let inflight: u64 = cfg.max_inflight_blocks as u64;
        assert(block_size * inflight <= 0x400_0000 * 128) by (nonlinear_arith)
            requires
                block_size <= 0x400_0000,
                inflight <= 128,
        ;
        if block_size * inflight > MAX_GLOBAL_SCRATCH_BYTES {
            return Err(
                Failure::new(
                    joined3(
                        "memory_snapshot.background_download block_size * max_inflight_blocks must be <= ",
                        decimal_text(MAX_GLOBAL_SCRATCH_BYTES).as_str(),
                        " bytes",
                    ),
                ),
            );
        }
        if cfg.delay < 0 {
            return Err(
                Failure::new("memory_snapshot.background_download.delay must be >= 0".to_owned()),
            );
        }
        if cfg.try_cnt < 1 {
            return Err(
                Failure::new(
                    "memory_snapshot.background_download.try_cnt must be >= 1".to_owned(),
                ),
            );
        }
        Ok(())
    }

    /// Why the two global configurations are not acceptable, if they are not:
    /// each of them has to have its own file.
    pub open spec fn global_paths_rejection(self, canonical: CanonicalPaths) -> Option<Seq<char>> {
        if same_file(
            self.ublk.overlaybd.global_config_path@,
            self.memory_snapshot.overlaybd_global_config_path@,
            path_option(canonical.rootfs),
            path_option(canonical.memory),
        ) {
            Some(same_file_text())
        } else {
            None
        }
    }

    /// Checks that the two global configurations have different files.
    /// `canonical` holds the canonical paths of their normalized spellings.
    pub fn validate_overlaybd_global_config_paths(&self, canonical: &CanonicalPaths) -> (r: Result<
        (),
        Failure,
    >)
        ensures
            follows(r, self.global_paths_rejection(*canonical)),
    {
        let rootfs: Vec<Vec<u8>> =
            self.ublk.overlaybd.global_config_path.lexical_components();
        let memory: Vec<Vec<u8>> =
            self.memory_snapshot.overlaybd_global_config_path.lexical_components();
        let mut same: bool = lists_eq(&rootfs, &memory);
        if let (Some(a), Some(b)) = (&canonical.rootfs, &canonical.memory) {
            if lists_eq(&a.components(), &b.components()) {
                same = true;
            }
        }
        if same {
            return Err(
                Failure::new(
                    "ublk.overlaybd.global_config_path and memory_snapshot.overlaybd_global_config_path must be different".to_owned(),
                ),
            );
        }
        Ok(())
    }

    /// Why the time limit of the resize tool is not acceptable, if it is not.
    pub open spec fn resize_rejection(self) -> Option<Seq<char>> {
        if self.ublk.overlaybd.resize_timeout_secs == 0 {
            Some("invalid ublk.overlaybd config: resize_timeout_secs must be > 0"@)
        } else {
            None
        }
    }

    /// `r` is what the checks of this configuration come to: the first that
    /// fails decides, and without one the configuration is accepted.
    pub open spec fn judged(self, canonical: CanonicalPaths, r: Result<(), Failure>) -> bool {
        let cidrs = all_cidrs(self.network);
        if self.pools_rejection() is Some {
            follows(r, self.pools_rejection())
        } else if self.image.cache.gc.rejection() is Some {
            follows(r, self.image.cache.gc.rejection())
        } else if exists|k: int| 0 <= k < cidrs.len() && !is_cidr(#[trigger] cidrs[k]) {
            r matches Err(failure) && exists|bad: int|
                {
                    &&& 0 <= bad < cidrs.len()
                    &&& !is_cidr(#[trigger] cidrs[bad])
                    &&& forall|k: int| 0 <= k < bad ==> is_cidr(#[trigger] cidrs[k])
                    &&& failure@ == bad_cidr_text(cidrs[bad])
                }
        } else {
            follows(
                r,
                first_of(
                    self.resize_rejection(),
                    first_of(
                        download_rejection(self.memory_snapshot.background_download),
                        self.global_paths_rejection(canonical),
                    ),
                ),
            )
        }
    }

    /// Checks the whole configuration. `canonical` holds the canonical paths of
    /// the two global configurations, where the file system has them.
    pub fn validate(&self, canonical: &CanonicalPaths) -> (r: Result<(), Failure>)
        ensures
            self.judged(*canonical, r),
    {
        if let Err(failure) = self.validate_pool_config() {
            return Err(failure);
        }
        if let Err(failure) = self.image.cache.gc.validate() {
            return Err(failure);
        }
        if let Err(failure) = NetworkConfig::validate(&self.network) {
            return Err(failure);
        }
        if self.ublk.overlaybd.resize_timeout_secs == 0 {
            return Err(
                Failure::new(
                    "invalid ublk.overlaybd config: resize_timeout_secs must be > 0".to_owned(),
                ),
            );
        }
        if let Err(failure) = self.validate_memory_snapshot_background_download() {
            return Err(failure);
        }
        self.validate_overlaybd_global_config_paths(canonical)
    }
}

/// Every pool that is in use has a low watermark that is not above its high one,
/// and the pool of virtual machine monitors fills at least one at a time.
pub open spec fn pools_in_order(config: AppConfig) -> bool {
    &&& config.pool.block.enabled ==> config.pool.low_watermark <= config.pool.high_watermark
    &&& config.pool.firecracker.enabled ==> config.pool.low_watermark <= config.pool.high_watermark
        && config.pool.firecracker.fill_concurrency > 0
    &&& config.pool.network.enabled && config.pool.network.maintenance_enabled
        ==> config.pool.low_watermark <= config.pool.high_watermark
}

/// The numbers of a background download are within their bounds, and so is the
/// memory that they take together: 256 MiB for a layer, 2 GiB for a node.
pub open spec fn download_in_bounds(cfg: MemorySnapshotBackgroundDownloadConfig) -> bool {
    &&& 1 <= cfg.concurrency <= 16
    &&& cfg.block_size <= 64 * 1024 * 1024
    &&& cfg.block_size * cfg.concurrency <= 256 * 1024 * 1024
    &&& 1 <= cfg.max_inflight_blocks <= 128
    &&& cfg.block_size * cfg.max_inflight_blocks <= 2 * 1024 * 1024 * 1024
    &&& cfg.delay >= 0
    &&& cfg.try_cnt >= 1
}

/// Every accepted configuration has consistent watermarks in every pool that is
/// in use, whatever the other pools are.
pub proof fn law_accepted_pools_are_consistent(
    config: AppConfig,
    canonical: CanonicalPaths,
    r: Result<(), Failure>,
)
    requires
        config.judged(canonical, r),
        r is Ok,
    ensures
        config.pool.block.enabled ==> config.pool.low_watermark <= config.pool.high_watermark,
        config.pool.firecracker.enabled ==> config.pool.low_watermark
            <= config.pool.high_watermark,
        config.pool.network.enabled && config.pool.network.maintenance_enabled
            ==> config.pool.low_watermark <= config.pool.high_watermark,
        config.pool.firecracker.enabled ==> config.pool.firecracker.fill_concurrency > 0,
{
}

/// A configuration is accepted exactly when its pools are in order, the
/// watermarks of the image cache are shares with the low one below the high one,
/// every configured network is one, the resize tool has time, the background
/// download is in bounds, and the two global configurations have two files.
pub proof fn law_accepted_exactly_when_in_order(
    config: AppConfig,
    canonical: CanonicalPaths,
    r: Result<(), Failure>,
)
    requires
        config.judged(canonical, r),
    ensures
        r is Ok <==> {
            &&& config.pool.block.enabled ==> config.pool.low_watermark
                <= config.pool.high_watermark
            &&& config.pool.firecracker.enabled ==> config.pool.low_watermark
                <= config.pool.high_watermark && config.pool.firecracker.fill_concurrency > 0
            &&& config.pool.network.enabled && config.pool.network.maintenance_enabled
                ==> config.pool.low_watermark <= config.pool.high_watermark
            &&& 0 < config.image.cache.gc.low_watermark_ratio.bits
            &&& config.image.cache.gc.low_watermark_ratio.bits
                < config.image.cache.gc.high_watermark_ratio.bits
            &&& config.image.cache.gc.high_watermark_ratio.bits <= 0x3FF0_0000_0000_0000
            &&& forall|k: int|
                0 <= k < config.network.egress.always_denied_cidrs@.len() ==> is_cidr(
                    (#[trigger] config.network.egress.always_denied_cidrs@[k])@,
                )
            &&& is_cidr(config.network.internal.host_interaction_cidr@)
            &&& is_cidr(config.network.internal.veth_cidr@)
            &&& config.ublk.overlaybd.resize_timeout_secs > 0
            &&& 1 <= config.memory_snapshot.background_download.concurrency <= 16
            &&& config.memory_snapshot.background_download.block_size <= 64 * 1024 * 1024
            &&& config.memory_snapshot.background_download.block_size
                * config.memory_snapshot.background_download.concurrency <= 256 * 1024 * 1024
            &&& 1 <= config.memory_snapshot.background_download.max_inflight_blocks <= 128
            &&& config.memory_snapshot.background_download.block_size
                * config.memory_snapshot.background_download.max_inflight_blocks <= 2 * 1024 * 1024
                * 1024
            &&& config.memory_snapshot.background_download.delay >= 0
            &&& config.memory_snapshot.background_download.try_cnt >= 1
            &&& lexical(components(config.ublk.overlaybd.global_config_path@)) != lexical(
                components(config.memory_snapshot.overlaybd_global_config_path@),
            )
            &&& canonical.rootfs is Some && canonical.memory is Some ==> components(
                canonical.rootfs->0@,
            ) != components(canonical.memory->0@)
        },
{
    let cidrs = all_cidrs(config.network);
    let denied = config.network.egress.always_denied_cidrs@;
    let n = denied.len() as int;
    assert(cidrs.len() == n + 2);
    assert(cidrs[n] == config.network.internal.host_interaction_cidr@);
    assert(cidrs[n + 1] == config.network.internal.veth_cidr@);
    assert forall|k: int| 0 <= k < n implies #[trigger] cidrs[k] == denied[k]@ by {}
    if forall|k: int| 0 <= k < cidrs.len() ==> is_cidr(#[trigger] cidrs[k]) {
        assert forall|k: int| 0 <= k < n implies is_cidr((#[trigger] denied[k])@) by {
            assert(is_cidr(cidrs[k]));
        }
    }
    if is_cidr(cidrs[n]) && is_cidr(cidrs[n + 1]) && forall|k: int|
        0 <= k < n ==> is_cidr((#[trigger] denied[k])@) {
        assert forall|k: int| 0 <= k < cidrs.len() implies is_cidr(#[trigger] cidrs[k]) by {
            if k < n {
                assert(is_cidr(denied[k]@));
            }
        }
    }
}

/// An accepted configuration bounds the memory of background downloads: of one
/// layer to 256 MiB, of a node to 2 GiB, with at least one block in flight.
pub proof fn law_accepted_downloads_are_bounded(
    config: AppConfig,
    canonical: CanonicalPaths,
    r: Result<(), Failure>,
)
    requires
        config.judged(canonical, r),
        r is Ok,
    ensures
        ({
            let cfg = config.memory_snapshot.background_download;
            &&& 1 <= cfg.concurrency <= 16
            &&& 1 <= cfg.max_inflight_blocks <= 128
            &&& cfg.block_size * cfg.concurrency <= 256 * 1024 * 1024
            &&& cfg.block_size * cfg.max_inflight_blocks <= 2 * 1024 * 1024 * 1024
            &&& cfg.delay >= 0
            &&& cfg.try_cnt >= 1
        }),
{
}

/// The two global configurations of an accepted configuration never have one
/// file, however their paths are spelled.
pub proof fn law_accepted_global_paths_differ(
    config: AppConfig,
    canonical: CanonicalPaths,
    r: Result<(), Failure>,
)
    requires
        config.judged(canonical, r),
        r is Ok,
    ensures
        lexical(components(config.ublk.overlaybd.global_config_path@)) != lexical(
            components(config.memory_snapshot.overlaybd_global_config_path@),
        ),
{
}

/// Which failure a configuration is refused with: the first that applies, in the
/// order of the pools of networks, of block devices and of virtual machine
/// monitors, the image cache, the networks, the resize tool, the background
/// download and the global configurations.
pub proof fn law_first_failure_decides(
    config: AppConfig,
    canonical: CanonicalPaths,
    failure: Failure,
)
    requires
        config.judged(canonical, Err(failure)),
    ensures
        ({
            let upside_down = config.pool.low_watermark > config.pool.high_watermark;
            let marks = decimal(config.pool.low_watermark as nat)
                + ") must be <= high_watermark ("@ + decimal(config.pool.high_watermark as nat)
                + ")"@;
            let network = config.pool.network.enabled && config.pool.network.maintenance_enabled;
            let pools = upside_down && (network || config.pool.block.enabled
                || config.pool.firecracker.enabled) || (config.pool.firecracker.enabled
                && config.pool.firecracker.fill_concurrency == 0);
            let gc = config.image.cache.gc;
            let ratios = 0 < gc.low_watermark_ratio.bits < gc.high_watermark_ratio.bits
                <= 0x3FF0_0000_0000_0000;
            let cidrs = all_cidrs(config.network);
            let networks = forall|k: int| 0 <= k < cidrs.len() ==> is_cidr(#[trigger] cidrs[k]);
            let cfg = config.memory_snapshot.background_download;
            &&& upside_down && network ==> failure@ =~= "invalid network pool config: low_watermark ("@
                + marks
            &&& upside_down && !network && config.pool.block.enabled ==> failure@
                =~= "invalid block pool config: low_watermark ("@ + marks
            &&& upside_down && !network && !config.pool.block.enabled
                && config.pool.firecracker.enabled ==> failure@
                =~= "invalid firecracker pool config: low_watermark ("@ + marks
            &&& !(upside_down && (network || config.pool.block.enabled
                || config.pool.firecracker.enabled)) && config.pool.firecracker.enabled
                && config.pool.firecracker.fill_concurrency == 0 ==> failure@
                == "invalid firecracker pool config: fill_concurrency must be > 0"@
            &&& !pools && !ratios ==> failure@ == (if gc.high_watermark_ratio.bits == 0
                || gc.high_watermark_ratio.bits > 0x3FF0_0000_0000_0000 {
                "invalid image.cache.gc config: high_watermark_ratio must be > 0 and <= 1"@
            } else if gc.low_watermark_ratio.bits == 0 || gc.low_watermark_ratio.bits
                > 0x3FF0_0000_0000_0000 {
                "invalid image.cache.gc config: low_watermark_ratio must be > 0 and <= 1"@
            } else {
                "invalid image.cache.gc config: low_watermark_ratio must be < high_watermark_ratio"@
            })
            &&& !pools && ratios && !networks ==> exists|bad: int|
                {
                    &&& 0 <= bad < cidrs.len()
                    &&& !is_cidr(#[trigger] cidrs[bad])
                    &&& forall|k: int| 0 <= k < bad ==> is_cidr(#[trigger] cidrs[k])
                    &&& failure@ == "invalid network config: not an IPv4 CIDR: '"@ + cidrs[bad]
                        + "'"@
                }
            &&& !pools && ratios && networks && config.ublk.overlaybd.resize_timeout_secs == 0
                ==> failure@ == "invalid ublk.overlaybd config: resize_timeout_secs must be > 0"@
            &&& !pools && ratios && networks && config.ublk.overlaybd.resize_timeout_secs > 0
                && download_rejection(cfg) is Some ==> Some(failure@) == download_rejection(cfg)
            &&& !pools && ratios && networks && config.ublk.overlaybd.resize_timeout_secs > 0
                && download_rejection(cfg) is None ==> failure@
                == "ublk.overlaybd.global_config_path and memory_snapshot.overlaybd_global_config_path must be different"@
        }),
{
    reveal_strlit("invalid ");
    reveal_strlit("network");
    reveal_strlit("block");
    reveal_strlit("firecracker");
    reveal_strlit(" pool config: low_watermark (");
    reveal_strlit("invalid network pool config: low_watermark (");
    reveal_strlit("invalid block pool config: low_watermark (");
    reveal_strlit("invalid firecracker pool config: low_watermark (");
    assert("invalid "@ + "network"@ + " pool config: low_watermark ("@
        =~= "invalid network pool config: low_watermark ("@);
    assert("invalid "@ + "block"@ + " pool config: low_watermark ("@
        =~= "invalid block pool config: low_watermark ("@);
    assert("invalid "@ + "firecracker"@ + " pool config: low_watermark ("@
        =~= "invalid firecracker pool config: low_watermark ("@);
}

} // verus!
