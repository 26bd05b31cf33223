use load_reth::chainspec::{BlobParams, LoadChainSpec, LOAD_TARGET_BLOB_COUNT};
use load_reth::engine::builder::Eip4844PoolTransactionError;
use load_reth::node::{
    LoadNetworkBuilder, LoadNode, BYTES_PER_BLOB, LOAD_POOLED_TX_SOFT_LIMIT_BYTES,
};
use load_reth::pool::{BlobPoolSizing, LoadPoolBuilder, SubPoolLimit, EPOCH_SLOTS};
use load_reth::transaction::{blob_count, SignedTransaction};
use load_reth::version::{load_client_version_entry, load_client_version_string, load_commit};

fn blob_tx(blobs: usize) -> SignedTransaction {
    SignedTransaction {
        gas_limit: 21_000,
        max_fee_per_gas: 10,
        max_priority_fee_per_gas: Some(1),
        blob_versioned_hashes: Some(vec![[1u8; 32]; blobs]),
        encoded_length: 10,
    }
}

#[test]
fn test_blob_cache_calculation() {
    let target = LOAD_TARGET_BLOB_COUNT;
    let cache_size = (target * EPOCH_SLOTS * 2) as u32;
    assert_eq!(cache_size, 32_768, "Cache should be 32,768 blobs for Load");
    assert_eq!(LoadPoolBuilder::blob_cache_size(target, None), 32_768);
    assert_eq!(EPOCH_SLOTS, alloy_eips::merge::EPOCH_SLOTS);
}

#[test]
fn blob_cache_is_configured_or_calculated() {
    assert_eq!(LoadPoolBuilder::blob_cache_size(512, Some(100)), 100);
    assert_eq!(LoadPoolBuilder::blob_cache_size(3, None), 192);
    assert_eq!(LoadPoolBuilder::blob_cache_size(0, None), 0);
    // the product is cut to 32 bits
    assert_eq!(LoadPoolBuilder::blob_cache_size(1 << 26, None), 0);
    assert_eq!(LoadPoolBuilder::blob_cache_size((1 << 26) + 1, None), 64);
    assert_eq!(LoadPoolBuilder::blob_cache_size(u64::MAX, None), u32::MAX);
}

#[test]
fn blob_sub_pool_is_scaled_with_the_cache() {
    // 32768 * 4 / 32 = 4096 transactions; 4096 / 1000 rounded up is 5
    let limit = LoadPoolBuilder::blob_limit(32_768, SubPoolLimit::new(1_000, 20));
    assert_eq!(limit, SubPoolLimit { max_txs: 4_096, max_size: 100 });
    // the sub-pool's own limit stays where it is larger
    let limit = LoadPoolBuilder::blob_limit(32_768, SubPoolLimit::new(10_000, 20));
    assert_eq!(limit, SubPoolLimit { max_txs: 10_000, max_size: 20 });
    // never fewer than the target blob count
    let limit = LoadPoolBuilder::blob_limit(0, SubPoolLimit::new(100, 7));
    assert_eq!(limit, SubPoolLimit { max_txs: 512, max_size: 42 });
    let limit = LoadPoolBuilder::blob_limit(0, SubPoolLimit::new(0, 7));
    assert_eq!(limit, SubPoolLimit { max_txs: 512, max_size: 7 * 511 });
    let limit = LoadPoolBuilder::blob_limit(0, SubPoolLimit::new(1, usize::MAX));
    assert_eq!(limit, SubPoolLimit { max_txs: 512, max_size: usize::MAX });

    let spec = LoadChainSpec::default();
    let sizing = LoadPoolBuilder::default().build_pool(
        spec.blob_params_at_timestamp(1),
        None,
        SubPoolLimit::new(1_000, 20),
    );
    assert_eq!(
        sizing,
        BlobPoolSizing {
            blob_cache_size: 32_768,
            blob_limit: SubPoolLimit { max_txs: 4_096, max_size: 100 }
        }
    );
    let sizing = LoadPoolBuilder::default().build_pool(None, None, SubPoolLimit::new(1_000, 20));
    assert_eq!(sizing.blob_cache_size, 192);
    let sizing = LoadPoolBuilder::default().build_pool(None, Some(5), SubPoolLimit::new(1_000, 20));
    assert_eq!(sizing.blob_cache_size, 5);
}

#[test]
fn tx_with_too_many_blobs_is_rejected_at_ingress() {
    let spec = LoadChainSpec::default();
    let params: BlobParams = spec.blob_params_at_timestamp(1).unwrap();
    assert_eq!(
        LoadPoolBuilder::ensure_max_blobs_per_tx(&blob_tx(33), &params),
        Err(Eip4844PoolTransactionError::TooManyEip4844Blobs { have: 33, permitted: 32 }),
        "tx with >{} blobs should be rejected",
        32
    );
    assert_eq!(LoadPoolBuilder::ensure_max_blobs_per_tx(&blob_tx(32), &params), Ok(()));
    assert_eq!(LoadPoolBuilder::ensure_max_blobs_per_tx(&blob_tx(0), &params), Ok(()));
}

#[test]
fn blob_count_is_the_number_of_versioned_hashes() {
    assert_eq!(blob_count(&blob_tx(0)), 0);
    assert_eq!(blob_count(&blob_tx(5)), 5);
    let mut plain = blob_tx(5);
    assert!(plain.is_eip4844());
    plain.blob_versioned_hashes = None;
    assert_eq!(blob_count(&plain), 0);
    assert!(!plain.is_eip4844());
}

#[test]
fn version_strings() {
    assert_eq!(load_client_version_string("0.1.0", Some("abc1234")), "load-reth/v0.1.0-abc1234");
    assert_eq!(load_client_version_string("0.1.0", None), "load-reth/v0.1.0-unknown");
    assert_eq!(load_commit(Some("deadbeef")), "0xdeadbeef");
    assert_eq!(load_commit(None), "0x0");
    let entry = load_client_version_entry("1.2.3", None, Some("ff00"));
    assert_eq!(entry.code, "RH");
    assert_eq!(entry.name, "load-reth");
    assert_eq!(entry.version, "load-reth/v1.2.3-unknown");
    assert_eq!(entry.commit, "0xff00");
}

#[test]
fn node_settings() {
    assert_eq!(BYTES_PER_BLOB, alloy_eips::eip4844::BYTES_PER_BLOB);
    assert_eq!(LOAD_POOLED_TX_SOFT_LIMIT_BYTES, 32 * 131_072);
    let config = LoadNetworkBuilder::default().transaction_fetcher_config();
    assert_eq!(config.soft_limit_byte_size_pooled_transactions_response, 4_194_304);
    assert_eq!(
        config.soft_limit_byte_size_pooled_transactions_response_on_pack_request,
        4_194_304
    );
    let spec = LoadChainSpec::default();
    let builder = LoadNode::local_payload_attributes_builder(spec.clone());
    assert!(builder.0 == spec);
    let _node = LoadNode::default();
}
