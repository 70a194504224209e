//! The image cache of a node.
use crate::config::paths::{resolve_in_place, resolved};
use crate::failure::Failure;
use crate::fs_path::{FsPath, join_text};
use vstd::prelude::*;
use vstd::utf8::*;

verus! {

/// A share between nothing and all, held as the bits of a 64-bit IEEE 754
/// number. Of numbers that are not negative, the greater has the greater bits.
#[derive(Debug, Clone, Copy, PartialEq, Eq, Structural)]
pub struct Ratio {
    pub bits: u64,
}

/// The bits of the number one.
pub const ONE_BITS: u64 = 0x3FF0_0000_0000_0000;

impl Ratio {
    /// More than zero and not more than one.
    pub open spec fn is_share(self) -> bool {
        0 < self.bits <= ONE_BITS
    }
}

/// When the image cache is cleaned up, and how far.
#[derive(Debug, Clone)]
pub struct ImageCacheGcConfig {
    /// A cache that is fuller than this is cleaned up.
    pub high_watermark_ratio: Ratio,
    /// A clean-up ends when the cache is no fuller than this.
    pub low_watermark_ratio: Ratio,
}

/// The part of the image cache that holds blocks of remote layers.
#[derive(Debug, Clone)]
pub struct ImageRemoteBlocksCacheConfig {
    pub max_size_gb: u64,
}

/// Where the image cache is and how large it gets.
#[derive(Debug, Clone)]
pub struct ImageCacheConfig {
    pub root_dir: FsPath,
    pub remote_blocks: ImageRemoteBlocksCacheConfig,
    pub gc: ImageCacheGcConfig,
}

/// How images are kept.
#[derive(Debug, Clone)]
pub struct ImageConfig {
    pub cache: ImageCacheConfig,
}

/// The image cache with its directories worked out.
#[derive(Debug, Clone)]
pub struct ResolvedImageCacheConfig {
    pub remote_blocks_dir: FsPath,
    pub remote_blocks_size_gb: u64,
}

impl ImageConfig {
    /// The values of a configuration that sets nothing; the size and the two
    /// watermarks are choices of this library.
    pub open spec fn is_default(self) -> bool {
        &&& self.cache.root_dir@ == encode_utf8("$AENV_HOME/image-cache"@)
        &&& self.cache.remote_blocks.max_size_gb == 100
        &&& self.cache.gc.high_watermark_ratio.bits == 0x3FEC_CCCC_CCCC_CCCD
        &&& self.cache.gc.low_watermark_ratio.bits == 0x3FE9_9999_9999_999A
    }

    /// Resolves the directory of the cache.
    pub fn normalize(image: &mut ImageConfig, config_dir: &FsPath, home_path: &FsPath)
        ensures
            final(image).cache.root_dir@ == resolved(
                home_path@,
                config_dir@,
                old(image).cache.root_dir@,
            ),
            final(image).cache.remote_blocks == old(image).cache.remote_blocks,
            final(image).cache.gc == old(image).cache.gc,
    {
        resolve_in_place(&mut image.cache.root_dir, home_path, config_dir);
    }
}

impl Default for ImageConfig {
    fn default() -> (r: Self)
        ensures
            r.is_default(),
    {
        ImageConfig {
            cache: ImageCacheConfig {
                root_dir: FsPath::from_text("$AENV_HOME/image-cache"),
                remote_blocks: ImageRemoteBlocksCacheConfig { max_size_gb: 100 },
                gc: ImageCacheGcConfig {
                    high_watermark_ratio: Ratio { bits: 0x3FEC_CCCC_CCCC_CCCD },
                    low_watermark_ratio: Ratio { bits: 0x3FE9_9999_9999_999A },
                },
            },
        }
    }
}

impl ImageCacheConfig {
    /// The cache with its directories worked out.
    pub fn layout(&self) -> (r: ResolvedImageCacheConfig)
        ensures
            r.remote_blocks_dir@ == join_text(self.root_dir@, "remote-blocks"@),
            r.remote_blocks_size_gb == self.remote_blocks.max_size_gb,
    {
        ResolvedImageCacheConfig {
            remote_blocks_dir: self.root_dir.join_text("remote-blocks"),
            remote_blocks_size_gb: self.remote_blocks.max_size_gb,
        }
    }
}

impl ImageCacheGcConfig {
    /// Why the watermarks are not acceptable, if they are not. The bounds and
    /// their order are a choice of this library.
    pub open spec fn rejection(self) -> Option<Seq<char>> {
        if !self.high_watermark_ratio.is_share() {
            Some("invalid image.cache.gc config: high_watermark_ratio must be > 0 and <= 1"@)
        } else if !self.low_watermark_ratio.is_share() {
            Some("invalid image.cache.gc config: low_watermark_ratio must be > 0 and <= 1"@)
        } else if self.low_watermark_ratio.bits >= self.high_watermark_ratio.bits {
            Some(
                "invalid image.cache.gc config: low_watermark_ratio must be < high_watermark_ratio"@,
            )
        } else {
            None
        }
    }

    /// Both watermarks have to be shares, the low one below the high one.
    pub fn validate(&self) -> (r: Result<(), Failure>)
        ensures
            r is Ok <==> self.rejection() is None,
            r is Ok <==> 0 < self.low_watermark_ratio.bits && self.low_watermark_ratio.bits
                < self.high_watermark_ratio.bits && self.high_watermark_ratio.bits
                <= 0x3FF0_0000_0000_0000,
            r matches Err(failure) ==> Some(failure@) == self.rejection(),
    {
        let high: u64 = self.high_watermark_ratio.bits;
        let low: u64 = self.low_watermark_ratio.bits;
        if high == 0 || high > ONE_BITS {
            return Err(
                Failure::new(
                    "invalid image.cache.gc config: high_watermark_ratio must be > 0 and <= 1".to_owned(),
                ),
            );
        }
        if low == 0 || low > ONE_BITS {
            return Err(
                Failure::new(
                    "invalid image.cache.gc config: low_watermark_ratio must be > 0 and <= 1".to_owned(),
                ),
            );
        }
        if low >= high {
            return Err(
                Failure::new(
                    "invalid image.cache.gc config: low_watermark_ratio must be < high_watermark_ratio".to_owned(),
                ),
            );
        }
        Ok(())
    }
}

} // verus!
