//! Sizing of the transaction pool for the network's blob throughput, and
//! the cap on the blobs of one transaction.
//!
//! The blob cache holds two epochs' worth of blobs at the network's target
//! unless the operator sets its size. The blob sub-pool is scaled with the
//! cache.

use vstd::prelude::*;
use crate::chainspec::{BlobParams, LOAD_MAX_BLOBS_PER_TX, LOAD_TARGET_BLOB_COUNT};
use crate::engine::builder::Eip4844PoolTransactionError;
use crate::transaction::{blob_count, SignedTransaction};

verus! {

/// Slots in an epoch.
pub const EPOCH_SLOTS: u64 = 32;

/// Limits of a sub-pool: how many transactions, and how many bytes.
#[derive(Clone, Copy, Debug, PartialEq, Eq, Structural)]
pub struct SubPoolLimit {
    pub max_txs: usize,
    pub max_size: usize,
}

impl SubPoolLimit {
    pub fn new(max_txs: usize, max_size: usize) -> (r: Self)
        ensures
            r == (SubPoolLimit { max_txs, max_size }),
    {
        Self { max_txs, max_size }
    }
}

/// What the pool is sized with.
#[derive(Clone, Copy, Debug, PartialEq, Eq, Structural)]
pub struct BlobPoolSizing {
    /// Blobs that the cache holds.
    pub blob_cache_size: u32,
    /// Limits of the blob sub-pool.
    pub blob_limit: SubPoolLimit,
}

/// `a * b`, or `u64::MAX` where that does not fit.
pub open spec fn saturating_mul_u64(a: u64, b: u64) -> u64 {
    if a * b <= u64::MAX {
        (a * b) as u64
    } else {
        u64::MAX
    }
}

/// `a * b`, or `usize::MAX` where that does not fit.
pub open spec fn saturating_mul_usize(a: usize, b: usize) -> usize {
    if a * b <= usize::MAX {
        (a * b) as usize
    } else {
        usize::MAX
    }
}

/// The lower 32 bits of `x`.
pub open spec fn low_u32(x: u64) -> u32 {
    (x & 0xffff_ffff) as u32
}

/// The size of the blob cache that follows from the target blob count:
/// two epochs' worth of blobs, cut to 32 bits.
pub open spec fn calculated_blob_cache(target_blob_count: u64) -> u32 {
    low_u32(saturating_mul_u64(saturating_mul_u64(target_blob_count, EPOCH_SLOTS), 2))
}

/// The fewest blob transactions that the sub-pool has room for, with a
/// cache of the size given: four times the cache over the cap of blobs per
/// transaction, and at least the network's target blob count.
pub open spec fn min_blob_txs(blob_cache_size: u32) -> usize {
    let by_cache = saturating_mul_usize(blob_cache_size as usize, 4) / (
    LOAD_MAX_BLOBS_PER_TX as usize);
    if by_cache >= LOAD_TARGET_BLOB_COUNT as usize {
        by_cache as usize
    } else {
        LOAD_TARGET_BLOB_COUNT as usize
    }
}

/// The limits of the blob sub-pool, from its own and the size of the blob
/// cache: room for the larger of its own number of transactions and the
/// fewest that the cache asks for, and its bytes scaled by as much, rounded
/// up.
pub open spec fn scaled_blob_limit(blob_cache_size: u32, default_limit: SubPoolLimit) -> SubPoolLimit {
    let fewest = min_blob_txs(blob_cache_size);
    let target = if default_limit.max_txs >= fewest {
        default_limit.max_txs
    } else {
        fewest
    };
    let divisor = if default_limit.max_txs >= 1 {
        default_limit.max_txs
    } else {
        1usize
    };
    let scale = ((target + default_limit.max_txs - 1) / (divisor as int)) as usize;
    SubPoolLimit { max_txs: target, max_size: saturating_mul_usize(default_limit.max_size, scale) }
}

fn mul_or_max_u64(a: u64, b: u64) -> (r: u64)
    ensures
        r == saturating_mul_u64(a, b),
{
    match a.checked_mul(b) {
        Some(product) => product,
        None => u64::MAX,
    }
}

fn mul_or_max_usize(a: usize, b: usize) -> (r: usize)
    ensures
        r == saturating_mul_usize(a, b),
{
    match a.checked_mul(b) {
        Some(product) => product,
        None => usize::MAX,
    }
}

/// Load Network transaction pool builder.
#[derive(Clone, Copy, Debug, Default)]
pub struct LoadPoolBuilder;

impl LoadPoolBuilder {
    /// The size of the blob cache: what the operator configured, or two
    /// epochs' worth of blobs at the target blob count.
    pub fn blob_cache_size(target_blob_count: u64, configured: Option<u32>) -> (r: u32)
        ensures
            r == (match configured {
                Some(size) => size,
                None => calculated_blob_cache(target_blob_count),
            }),
    {
        let per_two_epochs: u64 = mul_or_max_u64(mul_or_max_u64(target_blob_count, EPOCH_SLOTS), 2);
        let low: u64 = per_two_epochs & 0xffff_ffff;
        assert(low <= 0xffff_ffff) by (bit_vector)
            requires
                low == per_two_epochs & 0xffff_ffff,
        ;
        let calculated_blob_cache: u32 = low as u32;
        match configured {
            Some(size) => size,
            None => calculated_blob_cache,
        }
    }

    /// The limits of the blob sub-pool, scaled to the size of the blob
    /// cache.
    pub fn blob_limit(blob_cache_size: u32, default_limit: SubPoolLimit) -> (r: SubPoolLimit)
        ensures
            r == scaled_blob_limit(blob_cache_size, default_limit),
            r.max_txs >= LOAD_TARGET_BLOB_COUNT,
            r.max_txs >= default_limit.max_txs,
    {
        let four_caches: usize = mul_or_max_usize(blob_cache_size as usize, 4);
        assert(four_caches <= 0x4_0000_0000);
        let by_cache: usize = four_caches / (LOAD_MAX_BLOBS_PER_TX as usize);
        assert(by_cache <= 0x2000_0000) by {
            assert(LOAD_MAX_BLOBS_PER_TX as usize == 32);
            assert(four_caches / 32 <= 0x2000_0000);
        }
        let min_blob_txs: usize = if by_cache >= LOAD_TARGET_BLOB_COUNT as usize {
            by_cache
        } else {
            LOAD_TARGET_BLOB_COUNT as usize
        };
        let target_blob_txs: usize = if default_limit.max_txs >= min_blob_txs {
            default_limit.max_txs
        } else {
            min_blob_txs
        };
        let divisor: usize = if default_limit.max_txs >= 1 {
            default_limit.max_txs
        } else {
            1
        };
        let rounded_up: u128 = target_blob_txs as u128 + default_limit.max_txs as u128 - 1;
        let wide_scale: u128 = rounded_up / (divisor as u128);
        proof {
            let d = divisor as int;
            let n = rounded_up as int;
            if default_limit.max_txs >= min_blob_txs {
                assert(n / d <= 1) by (nonlinear_arith)
                    requires
                        0 <= n < 2 * d,
                        d > 0,
                ;
            } else {
                assert(n / d <= n) by (nonlinear_arith)
                    requires
                        0 <= n,
                        d >= 1,
                ;
            }
            assert(wide_scale <= 0x4000_0000);
        }
        let scale: usize = wide_scale as usize;
        SubPoolLimit::new(target_blob_txs, mul_or_max_usize(default_limit.max_size, scale))
    }

    /// What the pool is sized with, from the blob parameters in force, the
    /// size of the blob cache that the operator configured, and the
    /// sub-pool's own limits.
    pub fn build_pool(
        self,
        blob_params: Option<BlobParams>,
        configured_blob_cache: Option<u32>,
        default_blob_limit: SubPoolLimit,
    ) -> (r: BlobPoolSizing)
        ensures
            r.blob_cache_size == (match configured_blob_cache {
                Some(size) => size,
                None => calculated_blob_cache(
                    match blob_params {
                        Some(params) => params.target_blob_count,
                        None => 3,
                    },
                ),
            }),
            r.blob_limit == scaled_blob_limit(r.blob_cache_size, default_blob_limit),
    {
        let blob_params = match blob_params {
            Some(params) => params,
            None => BlobParams::cancun(),
        };
        let blob_cache_size = Self::blob_cache_size(
            blob_params.target_blob_count,
            configured_blob_cache,
        );
        BlobPoolSizing {
            blob_cache_size,
            blob_limit: Self::blob_limit(blob_cache_size, default_blob_limit),
        }
    }

    /// Checks a transaction at the pool's door against the cap of blobs
    /// per transaction: one that carries more is refused, with the number
    /// it carries and the number permitted.
    pub fn ensure_max_blobs_per_tx(tx: &SignedTransaction, params: &BlobParams) -> (r: Result<
        (),
        Eip4844PoolTransactionError,
    >)
        ensures
            r is Ok <==> tx.blobs() <= params.max_blobs_per_tx,
            r matches Err(e) ==> e == (Eip4844PoolTransactionError::TooManyEip4844Blobs {
                have: tx.blobs() as u64,
                permitted: params.max_blobs_per_tx,
            }),
    {
        let have: u64 = blob_count(tx) as u64;
        if have > params.max_blobs_per_tx {
            return Err(
                Eip4844PoolTransactionError::TooManyEip4844Blobs {
                    have,
                    permitted: params.max_blobs_per_tx,
                },
            );
        }
        Ok(())
    }
}

/// With the network's target of 512 blobs the blob cache holds 32768
/// blobs.
pub proof fn lemma_load_blob_cache()
    ensures
        calculated_blob_cache(LOAD_TARGET_BLOB_COUNT) == 32_768,
{
    assert(32_768u64 & 0xffff_ffff == 32_768u64) by (bit_vector);
}

} // verus!
