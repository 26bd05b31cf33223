use load_reth::chainspec::{
    check_genesis, BlobParams, Genesis, GenesisError, GenesisSource, LoadChainSpec,
    LoadChainSpecParser, LOAD_BLOB_UPDATE_FRACTION, LOAD_MAX_BLOBS_PER_TX, LOAD_MAX_BLOB_COUNT,
    LOAD_TARGET_BLOB_COUNT,
};
use load_reth::primitives::U256;

fn u256(value: u64) -> U256 {
    U256::from_u64(value)
}

#[test]
fn test_default_chain_spec() {
    let spec = LoadChainSpec::default();
    assert_eq!(spec.chain_id(), 16_383);
    assert!(spec.is_cancun_active_at_timestamp(0));
    assert!(spec.is_prague_active_at_timestamp(0));
}

#[test]
fn test_blob_params_at_genesis() {
    let spec = LoadChainSpec::default();
    let params = spec.blob_params_at_timestamp(0).expect("Cancun active at genesis");
    assert_eq!(params.max_blob_count, LOAD_MAX_BLOB_COUNT);
    assert_eq!(params.target_blob_count, LOAD_TARGET_BLOB_COUNT);
    assert_eq!(params.max_blobs_per_tx, LOAD_MAX_BLOBS_PER_TX);
    assert_eq!(params.update_fraction, LOAD_BLOB_UPDATE_FRACTION);
}

#[test]
fn test_genesis_validation_requires_cancun_at_zero() {
    let mut genesis = Genesis::default();
    genesis.config.cancun_time = Some(100); // Wrong: should be 0
    genesis.config.terminal_total_difficulty = Some(U256::zero());

    let result = LoadChainSpec::from_genesis(genesis);
    assert!(result.is_err());
    assert_eq!(
        result.unwrap_err(),
        GenesisError::CancunNotAtGenesis { cancun_time: Some(100) }
    );
}

#[test]
fn test_genesis_validation_accepts_no_ttd() {
    let mut genesis = Genesis::default();
    genesis.config.cancun_time = Some(0);
    genesis.config.terminal_total_difficulty = None; // PoS mode

    let result = LoadChainSpec::from_genesis(genesis);
    assert!(result.is_ok());
}

#[test]
fn test_genesis_validation_accepts_zero_ttd() {
    let mut genesis = Genesis::default();
    genesis.config.cancun_time = Some(0);
    genesis.config.terminal_total_difficulty = Some(U256::zero());

    let result = LoadChainSpec::from_genesis(genesis);
    assert!(result.is_ok());
}

#[test]
fn test_genesis_validation_rejects_nonzero_ttd() {
    let mut genesis = Genesis::default();
    genesis.config.cancun_time = Some(0);
    genesis.config.terminal_total_difficulty = Some(u256(1000));

    let result = LoadChainSpec::from_genesis(genesis);
    assert!(result.is_err());
    assert_eq!(
        result.unwrap_err(),
        GenesisError::NonZeroTerminalTotalDifficulty { terminal_total_difficulty: u256(1000) }
    );
}

#[test]
fn test_hardforks_schedule() {
    let spec = LoadChainSpec::default();

    // Pre-Cancun forks at block 0
    assert!(spec.is_homestead_active_at_block(0));
    assert!(spec.is_berlin_active_at_block(0));
    assert!(spec.is_london_active_at_block(0));
    assert!(spec.is_paris_active_at_block(0));

    // Timestamp-based forks at timestamp 0
    assert!(spec.is_shanghai_active_at_timestamp(0));
    assert!(spec.is_cancun_active_at_timestamp(0));

    // Prague active at genesis
    assert!(spec.is_prague_active_at_timestamp(0));
}

#[test]
fn test_parser_dev_chain() {
    let result = LoadChainSpecParser::parse_builtin("load-dev");
    assert!(result.is_some());
    let spec = result.unwrap();
    assert_eq!(spec.chain_id(), 16_383);
}

#[test]
fn test_parser_mainnet_builtin() {
    let result = LoadChainSpecParser::parse_builtin("load");
    assert!(result.is_some());
    let spec = result.unwrap();
    assert_eq!(spec.chain_id(), 16_888);
}

#[test]
fn parser_takes_anything_else_for_a_path() {
    assert_eq!(LoadChainSpecParser::source("etc/genesis.json"), GenesisSource::File);
    assert_eq!(LoadChainSpecParser::source("load-devnet"), GenesisSource::File);
    assert_eq!(LoadChainSpecParser::source(""), GenesisSource::File);
    assert_eq!(LoadChainSpecParser::source("load-dev"), GenesisSource::BuiltinDev);
    assert_eq!(LoadChainSpecParser::source("load"), GenesisSource::BuiltinMainnet);
    assert!(LoadChainSpecParser::parse_builtin("etc/genesis.json").is_none());
    assert!(LoadChainSpecParser::parse_builtin("Load").is_none());
    let mut genesis = LoadChainSpec::dev_genesis();
    genesis.config.chain_id = 5;
    assert_eq!(LoadChainSpecParser::parse(genesis).unwrap().chain_id(), 5);
    assert_eq!(LoadChainSpecParser::supported_chains(), ["load", "load-dev"]);
}

#[test]
fn prague_must_be_at_genesis() {
    let mut genesis = Genesis::default();
    genesis.config.cancun_time = Some(0);
    genesis.config.prague_time = Some(1);
    genesis.config.terminal_total_difficulty = Some(U256::zero());
    genesis.config.terminal_total_difficulty_passed = true;
    genesis.config.shanghai_time = Some(0);

    let result = LoadChainSpec::from_genesis(genesis);
    assert!(result.is_err());
    assert!(result.is_err());
    assert_eq!(result.unwrap_err(), GenesisError::PragueNotAtGenesis { time: 1 });
}

#[test]
fn shanghai_must_be_at_genesis() {
    let mut genesis = Genesis::default();
    genesis.config.cancun_time = Some(0);
    genesis.config.prague_time = Some(0);
    genesis.config.shanghai_time = Some(5);
    genesis.config.terminal_total_difficulty = Some(U256::zero());
    genesis.config.terminal_total_difficulty_passed = true;

    let result = LoadChainSpec::from_genesis(genesis);
    assert!(result.is_err());
    assert_eq!(result.unwrap_err(), GenesisError::ShanghaiNotAtGenesis { time: 5 });
}

#[test]
fn merge_netsplit_must_be_zero() {
    let mut genesis = Genesis::default();
    genesis.config.cancun_time = Some(0);
    genesis.config.prague_time = Some(0);
    genesis.config.shanghai_time = Some(0);
    genesis.config.terminal_total_difficulty = Some(U256::zero());
    genesis.config.terminal_total_difficulty_passed = true;
    genesis.config.merge_netsplit_block = Some(1);

    let result = LoadChainSpec::from_genesis(genesis);
    assert!(result.is_err());
    assert_eq!(result.unwrap_err(), GenesisError::MergeNetsplitNotAtGenesis { block: 1 });
}

#[test]
fn genesis_without_cancun_is_refused() {
    let genesis = Genesis::default();
    assert_eq!(
        LoadChainSpec::from_genesis(genesis).unwrap_err(),
        GenesisError::CancunNotAtGenesis { cancun_time: None }
    );
}

#[test]
fn first_late_fork_is_reported() {
    let mut genesis = LoadChainSpec::dev_genesis();
    genesis.config.berlin_block = Some(9);
    genesis.config.london_block = Some(12);
    genesis.config.homestead_block = Some(0);
    assert_eq!(
        check_genesis(&genesis.config),
        Err(GenesisError::PreCancunForkNotAtGenesis { block: 9 })
    );
    genesis.config.dao_fork_block = Some(3);
    assert_eq!(
        LoadChainSpec::from_genesis(genesis).unwrap_err(),
        GenesisError::PreCancunForkNotAtGenesis { block: 3 }
    );
}

#[test]
fn rules_are_checked_in_order() {
    let mut genesis = Genesis::default();
    genesis.config.cancun_time = Some(0);
    genesis.config.terminal_total_difficulty = Some(u256(1));
    genesis.config.merge_netsplit_block = Some(2);
    genesis.config.gray_glacier_block = Some(3);
    genesis.config.shanghai_time = Some(4);
    genesis.config.prague_time = Some(5);
    assert_eq!(
        check_genesis(&genesis.config),
        Err(GenesisError::NonZeroTerminalTotalDifficulty { terminal_total_difficulty: u256(1) })
    );
    genesis.config.terminal_total_difficulty = None;
    assert_eq!(
        check_genesis(&genesis.config),
        Err(GenesisError::MergeNetsplitNotAtGenesis { block: 2 })
    );
    genesis.config.merge_netsplit_block = None;
    assert_eq!(
        check_genesis(&genesis.config),
        Err(GenesisError::PreCancunForkNotAtGenesis { block: 3 })
    );
    genesis.config.gray_glacier_block = Some(0);
    assert_eq!(
        check_genesis(&genesis.config),
        Err(GenesisError::ShanghaiNotAtGenesis { time: 4 })
    );
    genesis.config.shanghai_time = None;
    assert_eq!(check_genesis(&genesis.config), Err(GenesisError::PragueNotAtGenesis { time: 5 }));
    genesis.config.prague_time = None;
    assert_eq!(check_genesis(&genesis.config), Ok(()));
}

#[test]
fn validation_fills_in_what_is_left_open() {
    let mut genesis = Genesis::default();
    genesis.config.chain_id = 7;
    genesis.config.cancun_time = Some(0);
    genesis.config.osaka_time = Some(99);
    genesis.timestamp = 5;
    genesis.extra_data = vec![1, 2, 3];
    assert_eq!(LoadChainSpec::validate_genesis(&mut genesis), Ok(()));
    let config = genesis.config;
    assert_eq!(config.chain_id, 7);
    assert_eq!(config.osaka_time, Some(99));
    assert_eq!(config.terminal_total_difficulty, Some(U256::zero()));
    assert!(config.terminal_total_difficulty_passed);
    assert_eq!(config.merge_netsplit_block, Some(0));
    assert_eq!(config.shanghai_time, Some(0));
    assert_eq!(config.prague_time, Some(0));
    for fork in [
        config.homestead_block,
        config.dao_fork_block,
        config.eip150_block,
        config.eip155_block,
        config.eip158_block,
        config.byzantium_block,
        config.constantinople_block,
        config.petersburg_block,
        config.istanbul_block,
        config.muir_glacier_block,
        config.berlin_block,
        config.london_block,
        config.arrow_glacier_block,
        config.gray_glacier_block,
    ] {
        assert_eq!(fork, Some(0));
    }
    assert_eq!(genesis.timestamp, 5);
    assert_eq!(genesis.extra_data, vec![1, 2, 3]);
}

#[test]
fn refused_genesis_is_left_as_it_was() {
    let mut genesis = Genesis::default();
    genesis.config.cancun_time = Some(0);
    genesis.config.prague_time = Some(8);
    let before = genesis.clone();
    assert_eq!(
        LoadChainSpec::validate_genesis(&mut genesis),
        Err(GenesisError::PragueNotAtGenesis { time: 8 })
    );
    assert_eq!(genesis, before);
}

#[test]
fn blob_params_are_overridden_whatever_the_genesis_says() {
    let spec = LoadChainSpec::from_genesis(LoadChainSpec::dev_genesis()).unwrap();
    let load = BlobParams {
        target_blob_count: 512,
        max_blob_count: 1024,
        update_fraction: 5_007_716,
        min_blob_fee: 1,
        max_blobs_per_tx: 32,
        blob_base_cost: 0,
    };
    assert_eq!(spec.inner.blob_params.cancun, load);
    assert_eq!(spec.inner.blob_params.prague, load);
    let osaka = alloy_eips::eip7840::BlobParams::osaka();
    assert_eq!(spec.inner.blob_params.osaka.max_blob_count, osaka.max_blob_count);
    assert_eq!(spec.inner.blob_params.osaka.max_blob_count, 9);
    assert_eq!(spec.inner.blob_params.osaka.blob_base_cost, 8192);
    assert_eq!(spec.inner.blob_params.osaka.max_blobs_per_tx, 6);
    assert!(spec.inner.blob_params.scheduled.is_empty());
}

#[test]
fn blob_params_follow_the_schedule() {
    let mut spec = LoadChainSpec::default();
    spec.inner.genesis.config.osaka_time = Some(100);
    assert_eq!(spec.blob_params_at_timestamp(99).unwrap().max_blob_count, 1024);
    assert_eq!(spec.blob_params_at_timestamp(100).unwrap().max_blob_count, 9);
    let mut update = spec.inner.blob_params.osaka;
    update.max_blob_count = 15;
    let mut later = update;
    later.max_blob_count = 21;
    spec.inner.blob_params.scheduled = vec![(50, update), (200, later)];
    assert_eq!(spec.blob_params_at_timestamp(49).unwrap().max_blob_count, 1024);
    assert_eq!(spec.blob_params_at_timestamp(50).unwrap().max_blob_count, 15);
    assert_eq!(spec.blob_params_at_timestamp(150).unwrap().max_blob_count, 15);
    assert_eq!(spec.blob_params_at_timestamp(200).unwrap().max_blob_count, 21);
    spec.inner.blob_params.scheduled = Vec::new();
    spec.inner.genesis.config.osaka_time = None;
    spec.inner.genesis.config.prague_time = None;
    spec.inner.genesis.config.cancun_time = Some(10);
    assert!(spec.blob_params_at_timestamp(9).is_none());
    assert!(spec.blob_params_at_timestamp(10).is_some());
}

#[test]
fn builtin_genesis_files_obey_guardrails() {
    fn assert_guardrails(genesis: Genesis) {
        assert_eq!(genesis.config.cancun_time, Some(0));
        assert_eq!(genesis.config.prague_time, Some(0));
        assert_eq!(genesis.config.shanghai_time, Some(0));
        assert_eq!(genesis.config.terminal_total_difficulty, Some(U256::zero()));
        assert!(genesis.config.terminal_total_difficulty_passed);
        assert_eq!(genesis.config.merge_netsplit_block, Some(0));
        LoadChainSpec::from_genesis(genesis).expect("guardrail-compliant genesis");
    }

    assert_guardrails(LoadChainSpec::dev_genesis());
    assert_guardrails(LoadChainSpec::mainnet_genesis());
}
