//! The network's blob parameters in the environment that transactions run
//! in.
//!
//! Whatever the chain's specification says of the blob fee market at a
//! timestamp, the environment of a block carries the network's own cap per
//! transaction and update fraction, an excess blob gas within what a full
//! block of the network holds, and the blob gas price that follows from it.

use vstd::prelude::*;
use crate::chainspec::{
    cancun_blob_params, BlobParams, LoadChainSpec, LOAD_BLOB_UPDATE_FRACTION,
    LOAD_MAX_BLOBS_PER_TX, LOAD_MAX_BLOB_COUNT, LOAD_TARGET_BLOB_COUNT,
};

verus! {

/// Blob gas that one blob takes.
pub const DATA_GAS_PER_BLOB: u64 = 131_072;

/// Blob gas that a full block of the network takes.
pub const LOAD_MAX_BLOB_GAS_PER_BLOCK: u64 = 134_217_728;

/// The price of a unit of blob gas at the excess blob gas given, as
/// EIP-4844 derives it from the minimum price and the update fraction.
pub uninterp spec fn blob_fee(min_blob_fee: u128, excess_blob_gas: u64, update_fraction: u128) -> u128;

/// The inputs for which the price of blob gas can be computed in 128 bits:
/// the update fraction is not zero, the excess is at most 27 times the
/// update fraction, and the minimum price times the update fraction is at
/// most 2^88. The price is then below the minimum price times the update
/// fraction times e^27, which is below 2^128.
pub open spec fn blob_fee_computable(params: BlobParams, excess_blob_gas: u64) -> bool {
    &&& params.update_fraction != 0
    &&& excess_blob_gas <= 27 * params.update_fraction
    &&& params.min_blob_fee * params.update_fraction <= 0x100_0000_0000_0000_0000_0000
}

impl BlobParams {
    /// `alloy_eips::eip7840::BlobParams::max_blob_gas_per_block`: the blob
    /// gas of as many blobs as a block may carry.
    #[verifier::external_body]
    pub(crate) fn max_blob_gas_per_block(&self) -> (r: u64)
        requires
            self.max_blob_count * DATA_GAS_PER_BLOB <= u64::MAX,
        ensures
            r == self.max_blob_count * DATA_GAS_PER_BLOB,
    {
        let params = alloy_eips::eip7840::BlobParams {
            target_blob_count: self.target_blob_count,
            max_blob_count: self.max_blob_count,
            update_fraction: self.update_fraction,
            min_blob_fee: self.min_blob_fee,
            max_blobs_per_tx: self.max_blobs_per_tx,
            blob_base_cost: self.blob_base_cost,
        };
        params.max_blob_gas_per_block()
    }

    /// `alloy_eips::eip7840::BlobParams::calc_blob_fee`: the price of a
    /// unit of blob gas at the excess blob gas given, a function of the
    /// minimum price, the excess and the update fraction.
    #[verifier::external_body]
    pub(crate) fn calc_blob_fee(&self, excess_blob_gas: u64) -> (r: u128)
        requires
            blob_fee_computable(*self, excess_blob_gas),
        ensures
            r == blob_fee(self.min_blob_fee, excess_blob_gas, self.update_fraction),
    {
        let params = alloy_eips::eip7840::BlobParams {
            target_blob_count: self.target_blob_count,
            max_blob_count: self.max_blob_count,
            update_fraction: self.update_fraction,
            min_blob_fee: self.min_blob_fee,
            max_blobs_per_tx: self.max_blobs_per_tx,
            blob_base_cost: self.blob_base_cost,
        };
        params.calc_blob_fee(excess_blob_gas)
    }
}

/// Excess blob gas of a block and the price of blob gas that follows from
/// it.
#[derive(Clone, Copy, Debug, PartialEq, Eq, Structural)]
pub struct BlobExcessGasAndPrice {
    pub excess_blob_gas: u64,
    pub blob_gasprice: u128,
}

/// The settings of the environment that the network's rules touch.
#[derive(Clone, Copy, Debug, PartialEq, Eq, Structural)]
pub struct CfgEnv {
    /// Most blobs a transaction may carry; `None` where the environment
    /// has no cap.
    pub max_blobs_per_tx: Option<u64>,
    /// Update fraction of the blob fee; `None` where the environment
    /// derives it from the fork.
    pub blob_base_fee_update_fraction: Option<u64>,
}

/// The fields of a block's environment that the network's rules touch.
#[derive(Clone, Copy, Debug, PartialEq, Eq, Structural)]
pub struct BlockEnv {
    /// Excess blob gas and blob gas price; set from Cancun on.
    pub blob_excess_gas_and_price: Option<BlobExcessGasAndPrice>,
}

/// The environment that the transactions of a block run in, as far as the
/// network's rules touch it.
#[derive(Clone, Copy, Debug, PartialEq, Eq, Structural)]
pub struct EvmEnv {
    pub cfg_env: CfgEnv,
    pub block_env: BlockEnv,
}

/// The blob parameters of the environment, given those that the chain's
/// specification puts in force: the network's target, caps and update
/// fraction, and the minimum price and base cost of the chain's, or of
/// Cancun where the chain has none.
pub open spec fn load_blob_params_from(scheduled: Option<BlobParams>) -> BlobParams {
    let base = match scheduled {
        Some(params) => params,
        None => cancun_blob_params(),
    };
    BlobParams {
        target_blob_count: LOAD_TARGET_BLOB_COUNT,
        max_blob_count: LOAD_MAX_BLOB_COUNT,
        max_blobs_per_tx: LOAD_MAX_BLOBS_PER_TX,
        update_fraction: LOAD_BLOB_UPDATE_FRACTION,
        min_blob_fee: base.min_blob_fee,
        blob_base_cost: base.blob_base_cost,
    }
}

/// The excess blob gas and price of the environment of a block, given
/// what it held: an excess above what a full block of the network holds
/// is cut down to that, and the price follows from the excess. Where the
/// environment held none it gets excess zero and the price for it from
/// Cancun on, and stays without before.
pub open spec fn enforced_blob_env(
    params: BlobParams,
    cancun_active: bool,
    before: Option<BlobExcessGasAndPrice>,
) -> Option<BlobExcessGasAndPrice> {
    match before {
        Some(blob_env) => {
            let excess = if blob_env.excess_blob_gas > LOAD_MAX_BLOB_GAS_PER_BLOCK {
                LOAD_MAX_BLOB_GAS_PER_BLOCK
            } else {
                blob_env.excess_blob_gas
            };
            Some(
                BlobExcessGasAndPrice {
                    excess_blob_gas: excess,
                    blob_gasprice: blob_fee(params.min_blob_fee, excess, params.update_fraction),
                },
            )
        },
        None => if cancun_active {
            Some(
                BlobExcessGasAndPrice {
                    excess_blob_gas: 0,
                    blob_gasprice: blob_fee(params.min_blob_fee, 0, params.update_fraction),
                },
            )
        } else {
            None
        },
    }
}

/// Load-specific EVM configuration: the chain's specification and the
/// extra data of the blocks that the node builds.
#[derive(Clone, Debug)]
pub struct LoadEvmConfig {
    chain_spec: LoadChainSpec,
    extra_data: Vec<u8>,
}

/// The largest minimum price of blob gas for which the price can be
/// computed.
pub const MAX_MIN_BLOB_FEE: u128 = 0xffff_ffff_ffff_ffff;

impl LoadEvmConfig {
    pub closed spec fn spec_of(self) -> LoadChainSpec {
        self.chain_spec
    }

    pub closed spec fn extra_data_of(self) -> Seq<u8> {
        self.extra_data@
    }

    /// The blob parameters of the environment at `timestamp`.
    pub open spec fn blob_params_at(self, timestamp: u64) -> BlobParams {
        load_blob_params_from(self.spec_of().blob_params_at(timestamp))
    }

    /// Whether the price of blob gas at `timestamp` can be computed: the
    /// minimum price there fits in 64 bits.
    pub open spec fn priceable_at(self, timestamp: u64) -> bool {
        self.blob_params_at(timestamp).min_blob_fee <= MAX_MIN_BLOB_FEE
    }

    /// Creates a new config from the Load chain spec, without extra data.
    pub fn new(spec: LoadChainSpec) -> (r: Self)
        ensures
            r.spec_of() == spec,
            r.extra_data_of().len() == 0,
    {
        Self { chain_spec: spec, extra_data: Vec::new() }
    }

    /// Applies builder-configured extra data.
    pub fn with_extra_data(self, extra_data: Vec<u8>) -> (r: Self)
        ensures
            r.spec_of() == self.spec_of(),
            r.extra_data_of() == extra_data@,
    {
        Self { chain_spec: self.chain_spec, extra_data }
    }

    /// The chain's specification.
    pub fn chain_spec(&self) -> (r: &LoadChainSpec)
        ensures
            *r == self.spec_of(),
    {
        &self.chain_spec
    }

    /// The extra data of the blocks that the node builds.
    pub fn extra_data(&self) -> (r: &Vec<u8>)
        ensures
            r@ == self.extra_data_of(),
    {
        &self.extra_data
    }

    /// The blob parameters of the environment at `timestamp`: the
    /// network's target, caps and update fraction whatever the chain's
    /// specification holds there.
    pub fn load_blob_params_at(&self, timestamp: u64) -> (r: BlobParams)
        ensures
            r == self.blob_params_at(timestamp),
    {
        let mut params = match self.chain_spec.blob_params_at_timestamp(timestamp) {
            Some(params) => params,
            None => BlobParams::cancun(),
        };
        params.target_blob_count = LOAD_TARGET_BLOB_COUNT;
        params.max_blob_count = LOAD_MAX_BLOB_COUNT;
        params.max_blobs_per_tx = LOAD_MAX_BLOBS_PER_TX;
        params.update_fraction = LOAD_BLOB_UPDATE_FRACTION;
        params
    }

    /// Whether the price of blob gas at `timestamp` can be computed.
    pub fn is_priceable_at(&self, timestamp: u64) -> (r: bool)
        ensures
            r == self.priceable_at(timestamp),
    {
        self.load_blob_params_at(timestamp).min_blob_fee <= MAX_MIN_BLOB_FEE
    }

    /// Puts the network's blob parameters into the environment of a block
    /// at `timestamp`: the cap per transaction and the update fraction are
    /// the network's, the excess blob gas is at most what a full block of
    /// the network holds, and the price of blob gas follows from the
    /// excess.
    pub fn enforce_load_blob_env(&self, timestamp: u64, env: &mut EvmEnv)
        requires
            self.priceable_at(timestamp),
        ensures
            final(env).cfg_env.max_blobs_per_tx == Some(LOAD_MAX_BLOBS_PER_TX),
            final(env).cfg_env.blob_base_fee_update_fraction == Some(5_007_716u64),
            final(env).block_env.blob_excess_gas_and_price == enforced_blob_env(
                self.blob_params_at(timestamp),
                self.spec_of().cancun_active(timestamp),
                old(env).block_env.blob_excess_gas_and_price,
            ),
    {
        let params = self.load_blob_params_at(timestamp);
        env.cfg_env.max_blobs_per_tx = Some(params.max_blobs_per_tx);
        env.cfg_env.blob_base_fee_update_fraction = Some(5_007_716u64);
        assert(params.min_blob_fee * params.update_fraction <= 0x100_0000_0000_0000_0000_0000)
            by (nonlinear_arith)
            requires
                params.min_blob_fee <= 0xffff_ffff_ffff_ffff,
                params.update_fraction == 5_007_716,
        ;
        match env.block_env.blob_excess_gas_and_price {
            Some(blob_env) => {
                let max_blob_gas = params.max_blob_gas_per_block();
                let excess = if blob_env.excess_blob_gas > max_blob_gas {
                    max_blob_gas
                } else {
                    blob_env.excess_blob_gas
                };
                env.block_env.blob_excess_gas_and_price = Some(
                    BlobExcessGasAndPrice {
                        excess_blob_gas: excess,
                        blob_gasprice: params.calc_blob_fee(excess),
                    },
                );
            },
            None => {
                if self.chain_spec.is_cancun_active_at_timestamp(timestamp) {
                    env.block_env.blob_excess_gas_and_price = Some(
                        BlobExcessGasAndPrice {
                            excess_blob_gas: 0,
                            blob_gasprice: params.calc_blob_fee(0),
                        },
                    );
                }
            },
        }
    }

    /// The environment of a block at `timestamp`, from the one that the
    /// base protocol derives: unchanged where the price of blob gas cannot
    /// be computed there, which is told by `None`, and else with the
    /// network's blob parameters put in.
    pub fn evm_env(&self, timestamp: u64, env: EvmEnv) -> (r: Option<EvmEnv>)
        ensures
            r is Some <==> self.priceable_at(timestamp),
            r matches Some(enforced) ==> {
                &&& enforced.cfg_env.max_blobs_per_tx == Some(LOAD_MAX_BLOBS_PER_TX)
                &&& enforced.cfg_env.blob_base_fee_update_fraction == Some(5_007_716u64)
                &&& enforced.block_env.blob_excess_gas_and_price == enforced_blob_env(
                    self.blob_params_at(timestamp),
                    self.spec_of().cancun_active(timestamp),
                    env.block_env.blob_excess_gas_and_price,
                )
            },
    {
        if !self.is_priceable_at(timestamp) {
            return None;
        }
        let mut env = env;
        self.enforce_load_blob_env(timestamp, &mut env);
        Some(env)
    }
}

/// On a chain derived from a genesis description the price of blob gas can
/// be computed at every timestamp: the minimum price is 1 there.
pub proof fn lemma_derived_spec_is_priceable(config: LoadEvmConfig, timestamp: u64)
    requires
        config.spec_of().inner.blob_params.is_load_schedule(),
    ensures
        config.priceable_at(timestamp),
        config.blob_params_at(timestamp).min_blob_fee == 1,
{
}

/// Builder for the Load EVM executor.
#[derive(Clone, Copy, Debug, Default)]
pub struct LoadExecutorBuilder;

impl LoadExecutorBuilder {
    /// The EVM configuration of a node on the chain given, whose blocks
    /// carry the extra data that the payload builder is configured with.
    pub fn build_evm(self, chain_spec: LoadChainSpec, extra_data: Vec<u8>) -> (r: LoadEvmConfig)
        ensures
            r.spec_of() == chain_spec,
            r.extra_data_of() == extra_data@,
    {
        LoadEvmConfig::new(chain_spec).with_extra_data(extra_data)
    }
}

} // verus!
