//! Chain parameters of the Load Network: the blob budget, the activation
//! schedule and the rules a genesis description has to meet.
//!
//! Shanghai, Cancun and Prague are active from timestamp 0, every older fork
//! from block 0, and the chain is proof-of-stake from its first block. The
//! blob parameters of Cancun and Prague are replaced by the network's own,
//! whatever the genesis description says.

use vstd::prelude::*;
use crate::primitives::U256;
use crate::text::str_eq;

verus! {

/// Most blobs a block may carry.
pub const LOAD_MAX_BLOB_COUNT: u64 = 1024;

/// Blobs per block that the fee market aims at.
pub const LOAD_TARGET_BLOB_COUNT: u64 = 512;

/// Most blobs a single transaction may carry.
pub const LOAD_MAX_BLOBS_PER_TX: u64 = 32;

/// Update fraction of the blob fee (the Pectra value).
pub const LOAD_BLOB_UPDATE_FRACTION: u128 = 5_007_716;

/// Gas limit of a block where the operator configured none.
pub const LOAD_EXECUTION_GAS_LIMIT: u64 = 2_000_000_000;

/// Chain id of the development network.
pub const LOAD_DEV_CHAIN_ID: u64 = 16_383;

/// Chain id of the main network.
pub const LOAD_MAINNET_CHAIN_ID: u64 = 16_888;

/// Parameters of the blob fee market and of the blob budget.
#[derive(Clone, Copy, Debug, PartialEq, Eq, Structural)]
pub struct BlobParams {
    /// Blobs per block that the fee market aims at.
    pub target_blob_count: u64,
    /// Most blobs a block may carry.
    pub max_blob_count: u64,
    /// Update fraction of the blob fee.
    pub update_fraction: u128,
    /// Lowest price of a unit of blob gas.
    pub min_blob_fee: u128,
    /// Most blobs a single transaction may carry.
    pub max_blobs_per_tx: u64,
    /// Execution gas that each blob costs at least.
    pub blob_base_cost: u64,
}

/// The Cancun parameters of Ethereum.
pub open spec fn cancun_blob_params() -> BlobParams {
    BlobParams {
        target_blob_count: 3,
        max_blob_count: 6,
        update_fraction: 3_338_477,
        min_blob_fee: 1,
        max_blobs_per_tx: 6,
        blob_base_cost: 0,
    }
}

/// The Osaka parameters of Ethereum.
pub open spec fn osaka_blob_params() -> BlobParams {
    BlobParams {
        target_blob_count: 6,
        max_blob_count: 9,
        update_fraction: 5_007_716,
        min_blob_fee: 1,
        max_blobs_per_tx: 6,
        blob_base_cost: 8192,
    }
}

/// The parameters that the network uses for Cancun and Prague.
pub open spec fn load_blob_params() -> BlobParams {
    BlobParams {
        target_blob_count: LOAD_TARGET_BLOB_COUNT,
        max_blob_count: LOAD_MAX_BLOB_COUNT,
        update_fraction: LOAD_BLOB_UPDATE_FRACTION,
        min_blob_fee: cancun_blob_params().min_blob_fee,
        max_blobs_per_tx: LOAD_MAX_BLOBS_PER_TX,
        blob_base_cost: cancun_blob_params().blob_base_cost,
    }
}

impl BlobParams {
    /// `alloy_eips::eip7840::BlobParams::cancun`: target 3, at most 6 blobs
    /// per block and per transaction, update fraction 3338477, minimum fee 1,
    /// no base cost.
    #[verifier::external_body]
    pub(crate) fn cancun() -> (r: BlobParams)
        ensures
            r == cancun_blob_params(),
    {
        let p = alloy_eips::eip7840::BlobParams::cancun();
        BlobParams {
            target_blob_count: p.target_blob_count,
            max_blob_count: p.max_blob_count,
            update_fraction: p.update_fraction,
            min_blob_fee: p.min_blob_fee,
            max_blobs_per_tx: p.max_blobs_per_tx,
            blob_base_cost: p.blob_base_cost,
        }
    }

    /// `alloy_eips::eip7840::BlobParams::osaka`: target 6, at most 9 blobs
    /// per block and 6 per transaction, update fraction 5007716, minimum fee
    /// 1, base cost 2^13.
    #[verifier::external_body]
    pub(crate) fn osaka() -> (r: BlobParams)
        ensures
            r == osaka_blob_params(),
    {
        let p = alloy_eips::eip7840::BlobParams::osaka();
        BlobParams {
            target_blob_count: p.target_blob_count,
            max_blob_count: p.max_blob_count,
            update_fraction: p.update_fraction,
            min_blob_fee: p.min_blob_fee,
            max_blobs_per_tx: p.max_blobs_per_tx,
            blob_base_cost: p.blob_base_cost,
        }
    }
}

/// The blob parameters of a chain: one set per fork, and updates that take
/// effect at given timestamps.
#[derive(Clone, Debug, PartialEq, Eq)]
pub struct BlobScheduleBlobParams {
    /// Parameters from Cancun on.
    pub cancun: BlobParams,
    /// Parameters from Prague on.
    pub prague: BlobParams,
    /// Parameters from Osaka on.
    pub osaka: BlobParams,
    /// Updates by timestamp, in ascending order of activation.
    pub scheduled: Vec<(u64, BlobParams)>,
}

/// The last update in `scheduled[..end]` that is active at `timestamp`.
pub open spec fn scheduled_params_at(
    scheduled: Seq<(u64, BlobParams)>,
    end: int,
    timestamp: u64,
) -> Option<BlobParams>
    decreases end,
{
    if end <= 0 || end > scheduled.len() {
        None
    } else if timestamp >= scheduled[end - 1].0 {
        Some(scheduled[end - 1].1)
    } else {
        scheduled_params_at(scheduled, end - 1, timestamp)
    }
}

impl BlobScheduleBlobParams {
    /// The schedule of the network: its own parameters for Cancun and
    /// Prague, Ethereum's for Osaka, and no update by timestamp.
    pub open spec fn is_load_schedule(self) -> bool {
        &&& self.cancun == load_blob_params()
        &&& self.prague == load_blob_params()
        &&& self.osaka == osaka_blob_params()
        &&& self.scheduled@.len() == 0
    }

    /// The update by timestamp that is in force at `timestamp`: the last
    /// entry whose activation time is not after it.
    pub fn active_scheduled_params_at_timestamp(&self, timestamp: u64) -> (r: Option<BlobParams>)
        ensures
            r == scheduled_params_at(self.scheduled@, self.scheduled@.len() as int, timestamp),
    {
        let mut end: usize = self.scheduled.len();
        while end > 0
            invariant
                end <= self.scheduled@.len(),
                scheduled_params_at(self.scheduled@, self.scheduled@.len() as int, timestamp)
                    == scheduled_params_at(self.scheduled@, end as int, timestamp),
            decreases end,
        {
            let entry = self.scheduled[end - 1];
            if timestamp >= entry.0 {
                return Some(entry.1);
            }
            end -= 1;
        }
        None
    }
}

/// The activation schedule and merge parameters of a genesis description.
#[derive(Clone, Copy, Debug, PartialEq, Eq)]
pub struct ChainConfig {
    pub chain_id: u64,
    pub homestead_block: Option<u64>,
    pub dao_fork_block: Option<u64>,
    pub eip150_block: Option<u64>,
    pub eip155_block: Option<u64>,
    pub eip158_block: Option<u64>,
    pub byzantium_block: Option<u64>,
    pub constantinople_block: Option<u64>,
    pub petersburg_block: Option<u64>,
    pub istanbul_block: Option<u64>,
    pub muir_glacier_block: Option<u64>,
    pub berlin_block: Option<u64>,
    pub london_block: Option<u64>,
    pub arrow_glacier_block: Option<u64>,
    pub gray_glacier_block: Option<u64>,
    pub merge_netsplit_block: Option<u64>,
    pub shanghai_time: Option<u64>,
    pub cancun_time: Option<u64>,
    pub prague_time: Option<u64>,
    pub osaka_time: Option<u64>,
    pub terminal_total_difficulty: Option<U256>,
    pub terminal_total_difficulty_passed: bool,
}

impl ChainConfig {
    /// The forks older than Cancun that activate by block number, oldest
    /// first.
    pub open spec fn pre_cancun_forks(self) -> Seq<Option<u64>> {
        seq![
            self.homestead_block,
            self.dao_fork_block,
            self.eip150_block,
            self.eip155_block,
            self.eip158_block,
            self.byzantium_block,
            self.constantinople_block,
            self.petersburg_block,
            self.istanbul_block,
            self.muir_glacier_block,
            self.berlin_block,
            self.london_block,
            self.arrow_glacier_block,
            self.gray_glacier_block,
        ]
    }

    /// Every boundary that the network fixes is set, and set to genesis.
    pub open spec fn all_at_genesis(self) -> bool {
        &&& forall|i: int|
            0 <= i < 14 ==> (#[trigger] self.pre_cancun_forks()[i]) == Some(0u64)
        &&& self.merge_netsplit_block == Some(0u64)
        &&& self.shanghai_time == Some(0u64)
        &&& self.cancun_time == Some(0u64)
        &&& self.prague_time == Some(0u64)
        &&& self.terminal_total_difficulty matches Some(ttd) && ttd.value() == 0
        &&& self.terminal_total_difficulty_passed
    }

    /// A configuration with chain id 0 in which nothing is scheduled.
    pub fn empty() -> (r: ChainConfig)
        ensures
            r.chain_id == 0,
            forall|i: int| 0 <= i < 14 ==> (#[trigger] r.pre_cancun_forks()[i]) is None,
            r.merge_netsplit_block is None,
            r.shanghai_time is None,
            r.cancun_time is None,
            r.prague_time is None,
            r.osaka_time is None,
            r.terminal_total_difficulty is None,
            !r.terminal_total_difficulty_passed,
    {
        ChainConfig {
            chain_id: 0,
            homestead_block: None,
            dao_fork_block: None,
            eip150_block: None,
            eip155_block: None,
            eip158_block: None,
            byzantium_block: None,
            constantinople_block: None,
            petersburg_block: None,
            istanbul_block: None,
            muir_glacier_block: None,
            berlin_block: None,
            london_block: None,
            arrow_glacier_block: None,
            gray_glacier_block: None,
            merge_netsplit_block: None,
            shanghai_time: None,
            cancun_time: None,
            prague_time: None,
            osaka_time: None,
            terminal_total_difficulty: None,
            terminal_total_difficulty_passed: false,
        }
    }

    fn pre_cancun_array(&self) -> (r: [Option<u64>; 14])
        ensures
            r@ == self.pre_cancun_forks(),
    {
        let r = [
            self.homestead_block,
            self.dao_fork_block,
            self.eip150_block,
            self.eip155_block,
            self.eip158_block,
            self.byzantium_block,
            self.constantinople_block,
            self.petersburg_block,
            self.istanbul_block,
            self.muir_glacier_block,
            self.berlin_block,
            self.london_block,
            self.arrow_glacier_block,
            self.gray_glacier_block,
        ];
        assert(r@ =~= self.pre_cancun_forks());
        r
    }
}

/// A genesis description, as far as the network's rules read it.
#[derive(Clone, Debug, PartialEq, Eq)]
pub struct Genesis {
    /// Activation schedule and merge parameters.
    pub config: ChainConfig,
    /// Timestamp of the genesis block.
    pub timestamp: u64,
    /// Extra data of the genesis block, repeated in every block built.
    pub extra_data: Vec<u8>,
    /// Gas limit of the genesis block.
    pub gas_limit: u64,
}

impl Default for Genesis {
    /// A genesis at timestamp 0 with chain id 0 in which nothing is
    /// scheduled.
    fn default() -> (r: Genesis)
        ensures
            r.config.chain_id == 0,
            forall|i: int| 0 <= i < 14 ==> (#[trigger] r.config.pre_cancun_forks()[i]) is None,
            r.config.merge_netsplit_block is None,
            r.config.shanghai_time is None,
            r.config.cancun_time is None,
            r.config.prague_time is None,
            r.config.osaka_time is None,
            r.config.terminal_total_difficulty is None,
            !r.config.terminal_total_difficulty_passed,
            r.timestamp == 0,
            r.extra_data@.len() == 0,
            r.gas_limit == 0,
    {
        Genesis { config: ChainConfig::empty(), timestamp: 0, extra_data: Vec::new(), gas_limit: 0 }
    }
}

/// Why a genesis description is not one of this network.
#[derive(Clone, Copy, Debug, PartialEq, Eq)]
pub enum GenesisError {
    /// Cancun is missing or does not activate at timestamp 0.
    CancunNotAtGenesis { cancun_time: Option<u64> },
    /// The terminal total difficulty is set and is not zero.
    NonZeroTerminalTotalDifficulty { terminal_total_difficulty: U256 },
    /// The merge netsplit block is set and is not block 0.
    MergeNetsplitNotAtGenesis { block: u64 },
    /// A fork older than Cancun is set and does not activate at block 0.
    PreCancunForkNotAtGenesis { block: u64 },
    /// Shanghai is set and does not activate at timestamp 0.
    ShanghaiNotAtGenesis { time: u64 },
    /// Prague is set and does not activate at timestamp 0.
    PragueNotAtGenesis { time: u64 },
}

/// Whether a boundary is set, and set to something other than genesis.
pub open spec fn is_late(boundary: Option<u64>) -> bool {
    boundary is Some && boundary->0 != 0
}

/// The first entry of `forks[from..]` that is set to a block other than 0.
pub open spec fn first_late_fork(forks: Seq<Option<u64>>, from: int) -> Option<u64>
    decreases forks.len() - from,
{
    if from < 0 || from >= forks.len() {
        None
    } else if is_late(forks[from]) {
        forks[from]
    } else {
        first_late_fork(forks, from + 1)
    }
}

/// The rule that `config` breaks first, in the order in which the rules are
/// checked, or `None` where it breaks none.
pub open spec fn genesis_error(config: ChainConfig) -> Option<GenesisError> {
    if config.cancun_time != Some(0u64) {
        Some(GenesisError::CancunNotAtGenesis { cancun_time: config.cancun_time })
    } else if config.terminal_total_difficulty is Some
        && config.terminal_total_difficulty->0.value() != 0 {
        Some(
            GenesisError::NonZeroTerminalTotalDifficulty {
                terminal_total_difficulty: config.terminal_total_difficulty->0,
            },
        )
    } else if is_late(config.merge_netsplit_block) {
        Some(GenesisError::MergeNetsplitNotAtGenesis { block: config.merge_netsplit_block->0 })
    } else if first_late_fork(config.pre_cancun_forks(), 0) is Some {
        Some(
            GenesisError::PreCancunForkNotAtGenesis {
                block: first_late_fork(config.pre_cancun_forks(), 0)->0,
            },
        )
    } else if is_late(config.shanghai_time) {
        Some(GenesisError::ShanghaiNotAtGenesis { time: config.shanghai_time->0 })
    } else if is_late(config.prague_time) {
        Some(GenesisError::PragueNotAtGenesis { time: config.prague_time->0 })
    } else {
        None
    }
}

/// `after` is `before` with every boundary that the network fixes filled in
/// at genesis, and nothing else changed.
pub open spec fn is_normalized_from(after: ChainConfig, before: ChainConfig) -> bool {
    &&& after.all_at_genesis()
    &&& after.chain_id == before.chain_id
    &&& after.osaka_time == before.osaka_time
}

/// Where no fork of `forks[from..]` is late, each of them is unset or at
/// block 0.
pub proof fn lemma_no_late_fork(forks: Seq<Option<u64>>, from: int, i: int)
    requires
        0 <= from <= i < forks.len(),
        first_late_fork(forks, from) is None,
    ensures
        forks[i] is None || forks[i] == Some(0u64),
    decreases i - from,
{
    if from < i {
        lemma_no_late_fork(forks, from + 1, i);
    }
}

fn find_late_fork(forks: &[Option<u64>; 14]) -> (r: Option<u64>)
    ensures
        r == first_late_fork(forks@, 0),
{
    let mut i: usize = 14;
    let mut found: Option<u64> = None;
    while i > 0
        invariant
            i <= 14,
            forks@.len() == 14,
            found == first_late_fork(forks@, i as int),
        decreases i,
    {
        i -= 1;
        if let Some(block) = forks[i] {
            if block != 0 {
                found = Some(block);
            }
        }
    }
    found
}

/// Checks `config` against the rules of the network, in their order.
pub fn check_genesis(config: &ChainConfig) -> (r: Result<(), GenesisError>)
    ensures
        r is Ok <==> genesis_error(*config) is None,
        r matches Err(e) ==> genesis_error(*config) == Some(e),
{
    match config.cancun_time {
        Some(0) => {},
        _ => {
            return Err(GenesisError::CancunNotAtGenesis { cancun_time: config.cancun_time });
        },
    }
    if let Some(ttd) = config.terminal_total_difficulty {
        if !ttd.is_zero() {
            return Err(
                GenesisError::NonZeroTerminalTotalDifficulty { terminal_total_difficulty: ttd },
            );
        }
    }
    if let Some(block) = config.merge_netsplit_block {
        if block != 0 {
            return Err(GenesisError::MergeNetsplitNotAtGenesis { block });
        }
    }
    let forks = config.pre_cancun_array();
    if let Some(block) = find_late_fork(&forks) {
        return Err(GenesisError::PreCancunForkNotAtGenesis { block });
    }
    if let Some(time) = config.shanghai_time {
        if time != 0 {
            return Err(GenesisError::ShanghaiNotAtGenesis { time });
        }
    }
    if let Some(time) = config.prague_time {
        if time != 0 {
            return Err(GenesisError::PragueNotAtGenesis { time });
        }
    }
    Ok(())
}

/// The chain specification proper: the normalised genesis and the blob
/// parameters in force.
#[derive(Clone, Debug, PartialEq, Eq)]
pub struct ChainSpec {
    /// Chain id.
    pub chain_id: u64,
    /// The genesis description the chain was made from.
    pub genesis: Genesis,
    /// Blob parameters by fork and by timestamp.
    pub blob_params: BlobScheduleBlobParams,
}

/// Chain specification of the Load Network.
#[derive(Clone, Debug, PartialEq, Eq)]
pub struct LoadChainSpec {
    /// The underlying chain specification.
    pub inner: ChainSpec,
}

/// Whether a fork that activates at `activation` is active at `at`.
pub open spec fn active_at(activation: Option<u64>, at: u64) -> bool {
    activation matches Some(start) && at >= start
}

fn is_active_at(activation: Option<u64>, at: u64) -> (r: bool)
    ensures
        r == active_at(activation, at),
{
    match activation {
        Some(start) => at >= start,
        None => false,
    }
}

impl LoadChainSpec {
    /// Checks `genesis` against the rules of the network and fills in what
    /// it leaves open: an unset terminal total difficulty becomes 0 and is
    /// marked as passed, an unset merge netsplit block, fork older than
    /// Cancun, Shanghai or Prague activates at genesis. A description that
    /// breaks a rule is left as it was.
    pub fn validate_genesis(genesis: &mut Genesis) -> (r: Result<(), GenesisError>)
        ensures
            r is Ok <==> genesis_error(old(genesis).config) is None,
            r matches Err(e) ==> genesis_error(old(genesis).config) == Some(e) && *final(genesis)
                == *old(genesis),
            r is Ok ==> is_normalized_from(final(genesis).config, old(genesis).config),
            final(genesis).timestamp == old(genesis).timestamp,
            final(genesis).extra_data == old(genesis).extra_data,
            final(genesis).gas_limit == old(genesis).gas_limit,
    {
        match check_genesis(&genesis.config) {
            Err(e) => {
                return Err(e);
            },
            Ok(()) => {},
        }
        let ghost before = genesis.config;
        proof {
            assert forall|i: int| 0 <= i < 14 implies (#[trigger] before.pre_cancun_forks()[i])
                is None || before.pre_cancun_forks()[i] == Some(0u64) by {
                lemma_no_late_fork(before.pre_cancun_forks(), 0, i);
            }
            assert(before.pre_cancun_forks()[0] == before.homestead_block);
            assert(before.pre_cancun_forks()[1] == before.dao_fork_block);
            assert(before.pre_cancun_forks()[2] == before.eip150_block);
            assert(before.pre_cancun_forks()[3] == before.eip155_block);
            assert(before.pre_cancun_forks()[4] == before.eip158_block);
            assert(before.pre_cancun_forks()[5] == before.byzantium_block);
            assert(before.pre_cancun_forks()[6] == before.constantinople_block);
            assert(before.pre_cancun_forks()[7] == before.petersburg_block);
            assert(before.pre_cancun_forks()[8] == before.istanbul_block);
            assert(before.pre_cancun_forks()[9] == before.muir_glacier_block);
            assert(before.pre_cancun_forks()[10] == before.berlin_block);
            assert(before.pre_cancun_forks()[11] == before.london_block);
            assert(before.pre_cancun_forks()[12] == before.arrow_glacier_block);
            assert(before.pre_cancun_forks()[13] == before.gray_glacier_block);
        }
        if genesis.config.terminal_total_difficulty.is_none() {
            genesis.config.terminal_total_difficulty = Some(U256::zero());
        }
        genesis.config.terminal_total_difficulty_passed = true;
        genesis.config.merge_netsplit_block = Some(0);
        genesis.config.homestead_block = Some(0);
        genesis.config.dao_fork_block = Some(0);
        genesis.config.eip150_block = Some(0);
        genesis.config.eip155_block = Some(0);
        genesis.config.eip158_block = Some(0);
        genesis.config.byzantium_block = Some(0);
        genesis.config.constantinople_block = Some(0);
        genesis.config.petersburg_block = Some(0);
        genesis.config.istanbul_block = Some(0);
        genesis.config.muir_glacier_block = Some(0);
        genesis.config.berlin_block = Some(0);
        genesis.config.london_block = Some(0);
        genesis.config.arrow_glacier_block = Some(0);
        genesis.config.gray_glacier_block = Some(0);
        genesis.config.shanghai_time = Some(0);
        genesis.config.prague_time = Some(0);
        Ok(())
    }

    /// Derives the chain specification from a genesis description: the
    /// description is validated and normalised, the chain id is taken from
    /// it, and the blob parameters of Cancun and Prague are replaced by the
    /// network's own, whatever the description held.
    pub fn from_genesis(genesis: Genesis) -> (r: Result<LoadChainSpec, GenesisError>)
        ensures
            r is Ok <==> genesis_error(genesis.config) is None,
            r matches Err(e) ==> genesis_error(genesis.config) == Some(e),
            r matches Ok(spec) ==> {
                &&& spec.inner.chain_id == genesis.config.chain_id
                &&& is_normalized_from(spec.inner.genesis.config, genesis.config)
                &&& spec.inner.genesis.timestamp == genesis.timestamp
                &&& spec.inner.genesis.extra_data == genesis.extra_data
                &&& spec.inner.genesis.gas_limit == genesis.gas_limit
                &&& spec.inner.blob_params.is_load_schedule()
            },
    {
        let mut genesis = genesis;
        match Self::validate_genesis(&mut genesis) {
            Err(e) => {
                return Err(e);
            },
            Ok(()) => {},
        }
        let cancun = BlobParams::cancun();
        let load_blob_params = BlobParams {
            target_blob_count: LOAD_TARGET_BLOB_COUNT,
            max_blob_count: LOAD_MAX_BLOB_COUNT,
            max_blobs_per_tx: LOAD_MAX_BLOBS_PER_TX,
            update_fraction: LOAD_BLOB_UPDATE_FRACTION,
            min_blob_fee: cancun.min_blob_fee,
            blob_base_cost: cancun.blob_base_cost,
        };
        let blob_params = BlobScheduleBlobParams {
            cancun: load_blob_params,
            prague: load_blob_params,
            osaka: BlobParams::osaka(),
            scheduled: Vec::new(),
        };
        let chain_id = genesis.config.chain_id;
        Ok(LoadChainSpec { inner: ChainSpec { chain_id, genesis, blob_params } })
    }

    /// The genesis description of a built-in network with the chain id
    /// given: proof-of-stake from block 0, Shanghai, Cancun and Prague at
    /// timestamp 0.
    pub fn builtin_genesis(chain_id: u64) -> (r: Genesis)
        ensures
            genesis_error(r.config) is None,
            r.config.chain_id == chain_id,
            r.config.osaka_time is None,
            r.timestamp == 0,
            r.extra_data@.len() == 0,
    {
        let mut genesis = Genesis::default();
        genesis.config.chain_id = chain_id;
        genesis.config.terminal_total_difficulty = Some(U256::zero());
        genesis.config.terminal_total_difficulty_passed = true;
        genesis.config.shanghai_time = Some(0);
        genesis.config.cancun_time = Some(0);
        genesis.config.prague_time = Some(0);
        genesis.config.merge_netsplit_block = Some(0);
        proof {
            let forks = genesis.config.pre_cancun_forks();
            assert forall|i: int| 0 <= i < 14 implies (#[trigger] forks[i]) is None by {
                assert(genesis.config.pre_cancun_forks()[i] is None);
            }
            lemma_all_unset_none_late(forks, 0);
        }
        genesis
    }

    /// The genesis description of the development network: chain id 16383.
    pub fn dev_genesis() -> (r: Genesis)
        ensures
            genesis_error(r.config) is None,
            r.config.chain_id == LOAD_DEV_CHAIN_ID,
            r.config.osaka_time is None,
            r.timestamp == 0,
            r.extra_data@.len() == 0,
    {
        Self::builtin_genesis(LOAD_DEV_CHAIN_ID)
    }

    /// The genesis description of the main network: chain id 16888.
    pub fn mainnet_genesis() -> (r: Genesis)
        ensures
            genesis_error(r.config) is None,
            r.config.chain_id == LOAD_MAINNET_CHAIN_ID,
            r.config.osaka_time is None,
            r.timestamp == 0,
            r.extra_data@.len() == 0,
    {
        Self::builtin_genesis(LOAD_MAINNET_CHAIN_ID)
    }

    /// Chain id.
    pub fn chain_id(&self) -> (r: u64)
        ensures
            r == self.inner.chain_id,
    {
        self.inner.chain_id
    }

    /// The genesis description the chain was made from.
    pub fn genesis(&self) -> (r: &Genesis)
        ensures
            *r == self.inner.genesis,
    {
        &self.inner.genesis
    }

    /// Whether Shanghai is active at `timestamp`.
    pub open spec fn shanghai_active(self, timestamp: u64) -> bool {
        active_at(self.inner.genesis.config.shanghai_time, timestamp)
    }

    /// Whether Cancun is active at `timestamp`.
    pub open spec fn cancun_active(self, timestamp: u64) -> bool {
        active_at(self.inner.genesis.config.cancun_time, timestamp)
    }

    /// Whether Prague is active at `timestamp`.
    pub open spec fn prague_active(self, timestamp: u64) -> bool {
        active_at(self.inner.genesis.config.prague_time, timestamp)
    }

    /// Whether Osaka is active at `timestamp`.
    pub open spec fn osaka_active(self, timestamp: u64) -> bool {
        active_at(self.inner.genesis.config.osaka_time, timestamp)
    }

    /// Whether the merge has happened at block `number`: the chain has a
    /// terminal total difficulty and is past its merge netsplit block.
    pub open spec fn paris_active(self, number: u64) -> bool {
        &&& self.inner.genesis.config.terminal_total_difficulty is Some
        &&& match self.inner.genesis.config.merge_netsplit_block {
            Some(block) => number >= block,
            None => true,
        }
    }

    /// The blob parameters in force at `timestamp`: the latest update by
    /// timestamp if one is active, else those of the latest active fork
    /// among Osaka, Prague and Cancun; `None` before Cancun.
    pub open spec fn blob_params_at(self, timestamp: u64) -> Option<BlobParams> {
        let scheduled = scheduled_params_at(
            self.inner.blob_params.scheduled@,
            self.inner.blob_params.scheduled@.len() as int,
            timestamp,
        );
        if scheduled is Some {
            scheduled
        } else if self.osaka_active(timestamp) {
            Some(self.inner.blob_params.osaka)
        } else if self.prague_active(timestamp) {
            Some(self.inner.blob_params.prague)
        } else if self.cancun_active(timestamp) {
            Some(self.inner.blob_params.cancun)
        } else {
            None
        }
    }

    /// Whether Homestead is active at block `number`.
    pub fn is_homestead_active_at_block(&self, number: u64) -> (r: bool)
        ensures
            r == active_at(self.inner.genesis.config.homestead_block, number),
    {
        is_active_at(self.inner.genesis.config.homestead_block, number)
    }

    /// Whether Berlin is active at block `number`.
    pub fn is_berlin_active_at_block(&self, number: u64) -> (r: bool)
        ensures
            r == active_at(self.inner.genesis.config.berlin_block, number),
    {
        is_active_at(self.inner.genesis.config.berlin_block, number)
    }

    /// Whether London is active at block `number`.
    pub fn is_london_active_at_block(&self, number: u64) -> (r: bool)
        ensures
            r == active_at(self.inner.genesis.config.london_block, number),
    {
        is_active_at(self.inner.genesis.config.london_block, number)
    }

    /// Whether the merge has happened at block `number`.
    pub fn is_paris_active_at_block(&self, number: u64) -> (r: bool)
        ensures
            r == self.paris_active(number),
    {
        self.inner.genesis.config.terminal_total_difficulty.is_some()
            && match self.inner.genesis.config.merge_netsplit_block {
            Some(block) => number >= block,
            None => true,
        }
    }

    /// Whether Shanghai is active at `timestamp`.
    pub fn is_shanghai_active_at_timestamp(&self, timestamp: u64) -> (r: bool)
        ensures
            r == self.shanghai_active(timestamp),
    {
        is_active_at(self.inner.genesis.config.shanghai_time, timestamp)
    }

    /// Whether Cancun is active at `timestamp`.
    pub fn is_cancun_active_at_timestamp(&self, timestamp: u64) -> (r: bool)
        ensures
            r == self.cancun_active(timestamp),
    {
        is_active_at(self.inner.genesis.config.cancun_time, timestamp)
    }

    /// Whether Prague is active at `timestamp`.
    pub fn is_prague_active_at_timestamp(&self, timestamp: u64) -> (r: bool)
        ensures
            r == self.prague_active(timestamp),
    {
        is_active_at(self.inner.genesis.config.prague_time, timestamp)
    }

    /// Whether Osaka is active at `timestamp`.
    pub fn is_osaka_active_at_timestamp(&self, timestamp: u64) -> (r: bool)
        ensures
            r == self.osaka_active(timestamp),
    {
        is_active_at(self.inner.genesis.config.osaka_time, timestamp)
    }

    /// The blob parameters in force at `timestamp`.
    pub fn blob_params_at_timestamp(&self, timestamp: u64) -> (r: Option<BlobParams>)
        ensures
            r == self.blob_params_at(timestamp),
    {
        if let Some(params) = self.inner.blob_params.active_scheduled_params_at_timestamp(
            timestamp,
        ) {
            Some(params)
        } else if self.is_osaka_active_at_timestamp(timestamp) {
            Some(self.inner.blob_params.osaka)
        } else if self.is_prague_active_at_timestamp(timestamp) {
            Some(self.inner.blob_params.prague)
        } else if self.is_cancun_active_at_timestamp(timestamp) {
            Some(self.inner.blob_params.cancun)
        } else {
            None
        }
    }
}

/// Where every fork of `forks[from..]` is unset, none of them is late.
pub proof fn lemma_all_unset_none_late(forks: Seq<Option<u64>>, from: int)
    requires
        0 <= from <= forks.len(),
        forall|i: int| from <= i < forks.len() ==> (#[trigger] forks[i]) is None,
    ensures
        first_late_fork(forks, from) is None,
    decreases forks.len() - from,
{
    if from < forks.len() {
        lemma_all_unset_none_late(forks, from + 1);
    }
}

impl Default for LoadChainSpec {
    /// The chain specification of the development network.
    fn default() -> (r: LoadChainSpec)
        ensures
            r.inner.chain_id == LOAD_DEV_CHAIN_ID,
            r.inner.genesis.config.all_at_genesis(),
            r.inner.genesis.config.osaka_time is None,
            r.inner.genesis.timestamp == 0,
            r.inner.blob_params.is_load_schedule(),
    {
        let genesis = Self::dev_genesis();
        Self::from_genesis(genesis).unwrap()
    }
}

/// Every chain specification derived from a genesis description has the
/// network's blob parameters from its first block: at any timestamp before
/// Osaka they are in force.
pub proof fn lemma_derived_spec_has_load_params(spec: LoadChainSpec, timestamp: u64)
    requires
        spec.inner.genesis.config.all_at_genesis(),
        spec.inner.blob_params.is_load_schedule(),
        !spec.osaka_active(timestamp),
    ensures
        spec.blob_params_at(timestamp) == Some(load_blob_params()),
        spec.cancun_active(timestamp),
        spec.prague_active(timestamp),
        spec.shanghai_active(timestamp),
{
}

/// Where a genesis description comes from.
#[derive(Clone, Copy, Debug, PartialEq, Eq, Structural)]
pub enum GenesisSource {
    /// The description of the development network that ships with the node.
    BuiltinDev,
    /// The description of the main network that ships with the node.
    BuiltinMainnet,
    /// A file, named by the argument itself.
    File,
}

/// Chooses the genesis description for a `--chain` argument.
#[derive(Clone, Copy, Debug, Default)]
pub struct LoadChainSpecParser;

impl LoadChainSpecParser {
    /// The names of the networks whose genesis description ships with the
    /// node.
    pub fn supported_chains() -> (r: [&'static str; 2])
        ensures
            r@[0]@ == "load"@,
            r@[1]@ == "load-dev"@,
    {
        ["load", "load-dev"]
    }

    /// Where to take the genesis description from: a name of a built-in
    /// network selects that one, anything else is the path of a file.
    pub fn source(s: &str) -> (r: GenesisSource)
        ensures
            r == (if s@ == "load-dev"@ {
                GenesisSource::BuiltinDev
            } else if s@ == "load"@ {
                GenesisSource::BuiltinMainnet
            } else {
                GenesisSource::File
            }),
    {
        if str_eq(s, "load-dev") {
            GenesisSource::BuiltinDev
        } else if str_eq(s, "load") {
            GenesisSource::BuiltinMainnet
        } else {
            GenesisSource::File
        }
    }

    /// The chain specification of a built-in network, for an argument that
    /// names one: the development network for `load-dev`, the main network
    /// for `load`. `None` for any other argument, which is the path of a
    /// file.
    pub fn parse_builtin(s: &str) -> (r: Option<LoadChainSpec>)
        ensures
            r is Some <==> s@ == "load-dev"@ || s@ == "load"@,
            r matches Some(spec) ==> {
                &&& spec.inner.chain_id == (if s@ == "load-dev"@ {
                    LOAD_DEV_CHAIN_ID
                } else {
                    LOAD_MAINNET_CHAIN_ID
                })
                &&& spec.inner.genesis.config.all_at_genesis()
                &&& spec.inner.genesis.config.osaka_time is None
                &&& spec.inner.genesis.timestamp == 0
                &&& spec.inner.blob_params.is_load_schedule()
            },
    {
        let genesis = match Self::source(s) {
            GenesisSource::BuiltinDev => LoadChainSpec::dev_genesis(),
            GenesisSource::BuiltinMainnet => LoadChainSpec::mainnet_genesis(),
            GenesisSource::File => {
                return None;
            },
        };
        Some(LoadChainSpec::from_genesis(genesis).unwrap())
    }

    /// Derives the chain specification from the genesis description that
    /// was read for the argument.
    pub fn parse(genesis: Genesis) -> (r: Result<LoadChainSpec, GenesisError>)
        ensures
            r is Ok <==> genesis_error(genesis.config) is None,
            r matches Err(e) ==> genesis_error(genesis.config) == Some(e),
            r matches Ok(spec) ==> {
                &&& spec.inner.chain_id == genesis.config.chain_id
                &&& is_normalized_from(spec.inner.genesis.config, genesis.config)
                &&& spec.inner.genesis.timestamp == genesis.timestamp
                &&& spec.inner.genesis.extra_data == genesis.extra_data
                &&& spec.inner.genesis.gas_limit == genesis.gas_limit
                &&& spec.inner.blob_params.is_load_schedule()
            },
    {
        LoadChainSpec::from_genesis(genesis)
    }
}

} // verus!
