use load_reth::engine::payload::{
    empty_load_payload, validate_payload_attributes, validate_prev_randao, BlobSidecars,
    BlobTransactionSidecar, BlobTransactionSidecarEip7594, BlobTransactionSidecarVariant,
    BuiltPayloadConversionError, ExecutionPayload,
    ExecutionPayloadInputV2, ExecutionPayloadSidecar, ExecutionPayloadV1, ExecutionPayloadV2,
    ExecutionPayloadV3, LoadBuiltPayload,
    LoadEngineTypes, LoadExecutionData, LoadLocalPayloadAttributesBuilder,
    LoadPayloadAttributes, LoadPayloadAttributesError, LoadPayloadBuilderAttributes,
    PayloadAttributes, PayloadId, RequestsOrHash, Withdrawal,
};
use load_reth::chainspec::{LoadChainSpec, LOAD_MAX_BLOB_COUNT};
use load_reth::primitives::U256;
use load_reth::LOAD_PREVRANDAO;

type Payload = LoadBuiltPayload<()>;

fn older(blobs: usize, mark: u8) -> BlobTransactionSidecar {
    BlobTransactionSidecar {
        blobs: vec![vec![mark]; blobs],
        commitments: vec![[mark; 48]; blobs],
        proofs: vec![[mark; 48]; blobs],
    }
}

fn newer(blobs: usize, mark: u8) -> BlobTransactionSidecarEip7594 {
    BlobTransactionSidecarEip7594 {
        blobs: vec![vec![mark]; blobs],
        commitments: vec![[mark; 48]; blobs],
        cell_proofs: vec![[mark; 48]; blobs],
    }
}

fn attributes(timestamp: u64, prev_randao: [u8; 32]) -> PayloadAttributes {
    PayloadAttributes {
        timestamp,
        prev_randao,
        suggested_fee_recipient: [0u8; 20],
        withdrawals: None,
        parent_beacon_block_root: None,
    }
}

fn payload_v1(prev_randao: [u8; 32]) -> ExecutionPayloadV1 {
    ExecutionPayloadV1 {
        parent_hash: [7u8; 32],
        fee_recipient: [0u8; 20],
        state_root: [0u8; 32],
        receipts_root: [0u8; 32],
        logs_bloom: [0u8; 256],
        prev_randao,
        block_number: 4,
        gas_limit: 30_000_000,
        gas_used: 21_000,
        timestamp: 9,
        extra_data: Vec::new(),
        base_fee_per_gas: U256::zero(),
        block_hash: [8u8; 32],
        transactions: Vec::new(),
    }
}

#[test]
fn prev_randao_guard() {
    assert!(validate_prev_randao(LOAD_PREVRANDAO).is_ok());
    assert!(validate_prev_randao([0u8; 32]).is_err());
}

#[test]
fn reject_eip7594_sidecars() {
    let payload: Payload = empty_load_payload(PayloadId::default(), ());
    let payload = payload.inner.with_sidecars(BlobSidecars::Eip7594(Vec::new()));
    let err = LoadBuiltPayload::new(payload).try_into_v3();
    assert!(matches!(err.unwrap_err(), BuiltPayloadConversionError::UnexpectedEip7594Sidecars));
}

#[test]
fn accept_empty_sidecars() {
    let payload: Payload = empty_load_payload(PayloadId::default(), ());
    let env = payload.try_into_v3().unwrap();
    assert_eq!(env.blobs_bundle.len(), 0);
    assert!(!env.should_override_builder);
    assert_eq!(env.block_value, U256::zero());
}

#[test]
fn cap_blob_count() {
    let sidecars = vec![BlobTransactionSidecar::default(); (LOAD_MAX_BLOB_COUNT as usize) + 1];
    let payload: Payload = empty_load_payload(PayloadId::default(), ());
    let payload = payload.inner.with_sidecars(BlobSidecars::Eip4844(sidecars));
    let err = LoadBuiltPayload::new(payload).try_into_v3();
    assert!(matches!(err.unwrap_err(), BuiltPayloadConversionError::UnexpectedEip4844Sidecars));
}

#[test]
fn full_budget_of_sidecars_is_converted_whole() {
    let sidecars: Vec<BlobTransactionSidecar> =
        (0..LOAD_MAX_BLOB_COUNT).map(|i| older(1, (i % 251) as u8)).collect();
    let payload: Payload = empty_load_payload(PayloadId::default(), ());
    let payload = payload.inner.with_sidecars(BlobSidecars::Eip4844(sidecars.clone()));
    let payload = LoadBuiltPayload::new(payload);
    assert_eq!(payload.guard_sidecars(1024), Ok(()));
    assert_eq!(
        payload.guard_sidecars(1023),
        Err(BuiltPayloadConversionError::UnexpectedEip4844Sidecars)
    );
    let env = payload.clone().try_into_v3().unwrap();
    assert_eq!(env.blobs_bundle, sidecars);
    let env = payload.try_into_v4().unwrap();
    assert_eq!(env.envelope_inner.blobs_bundle, sidecars);
    assert!(env.execution_requests.is_empty());
}

#[test]
fn blobs_over_the_budget_are_refused_not_cut() {
    let with = |count: usize, blobs: usize| -> Payload {
        let empty: Payload = empty_load_payload(PayloadId::default(), ());
        LoadBuiltPayload::new(
            empty.inner.with_sidecars(BlobSidecars::Eip4844(vec![older(blobs, 1); count])),
        )
    };
    // 32 sidecars of 33 blobs each are 1056 blobs
    assert_eq!(
        with(32, 33).try_into_v3().unwrap_err(),
        BuiltPayloadConversionError::UnexpectedEip4844Sidecars
    );
    assert_eq!(
        with(32, 33).try_into_v4().unwrap_err(),
        BuiltPayloadConversionError::UnexpectedEip4844Sidecars
    );
    assert_eq!(with(32, 32).try_into_v3().unwrap().blobs_bundle.len(), 32);
    assert_eq!(
        with(1, 1025).guard_sidecars(1024),
        Err(BuiltPayloadConversionError::UnexpectedEip4844Sidecars)
    );
    assert_eq!(with(1, 1024).guard_sidecars(1024), Ok(()));
    assert_eq!(with(2, 512).guard_sidecars(1024), Ok(()));
    assert_eq!(
        with(3, 512).guard_sidecars(1024),
        Err(BuiltPayloadConversionError::UnexpectedEip4844Sidecars)
    );
    assert_eq!(with(1024, 0).guard_sidecars(1024), Ok(()));
    assert_eq!(
        with(1025, 0).guard_sidecars(1024),
        Err(BuiltPayloadConversionError::UnexpectedEip4844Sidecars)
    );
    assert!(with(1, 1).guard_sidecars(0).is_err());
    assert_eq!(with(0, 0).guard_sidecars(0), Ok(()));
}

#[test]
fn newest_envelope_takes_no_sidecars() {
    let empty: Payload = empty_load_payload(PayloadId::default(), ());
    assert!(empty.clone().try_into_v5().is_ok());
    let older = LoadBuiltPayload::new(
        empty.clone().inner.with_sidecars(BlobSidecars::Eip4844(vec![older(1, 1)])),
    );
    assert_eq!(
        older.try_into_v5().unwrap_err(),
        BuiltPayloadConversionError::UnexpectedEip4844Sidecars
    );
    let newer =
        LoadBuiltPayload::new(empty.inner.with_sidecars(BlobSidecars::Eip7594(vec![newer(1, 1)])));
    assert_eq!(
        newer.clone().try_into_v5().unwrap_err(),
        BuiltPayloadConversionError::UnexpectedEip7594Sidecars
    );
    assert_eq!(
        newer.try_into_v4().unwrap_err(),
        BuiltPayloadConversionError::UnexpectedEip7594Sidecars
    );
}

#[test]
fn older_envelopes_carry_block_and_value() {
    let mut payload: LoadBuiltPayload<u32> = empty_load_payload(PayloadId([1; 8]), 77);
    payload.inner.fees = U256::from_u64(5);
    payload.inner.requests = Some(vec![vec![0u8, 1u8]]);
    assert_eq!(*payload.block(), 77);
    assert_eq!(payload.fees(), U256::from_u64(5));
    assert_eq!(payload.clone().into_v1(), 77);
    let v2 = payload.clone().into_v2();
    assert_eq!(v2.execution_payload, 77);
    assert_eq!(v2.block_value, U256::from_u64(5));
    let v4 = payload.try_into_v4().unwrap();
    assert_eq!(v4.execution_requests, vec![vec![0u8, 1u8]]);
    assert_eq!(v4.envelope_inner.execution_payload, 77);
}

#[test]
fn sidecars_keep_the_scheme_of_the_first() {
    let mut sidecars = BlobSidecars::Empty;
    assert_eq!(sidecars.len(), 0);
    sidecars.push_sidecar_variant(BlobTransactionSidecarVariant::Eip4844(older(1, 1)));
    sidecars.push_sidecar_variant(BlobTransactionSidecarVariant::Eip7594(newer(1, 2)));
    sidecars.push_sidecar_variant(BlobTransactionSidecarVariant::Eip4844(older(2, 3)));
    assert_eq!(sidecars, BlobSidecars::Eip4844(vec![older(1, 1), older(2, 3)]));
    assert_eq!(sidecars.len(), 2);
    let mut later = BlobSidecars::Empty;
    later.push_sidecar_variant(BlobTransactionSidecarVariant::Eip7594(newer(1, 2)));
    later.push_sidecar_variant(BlobTransactionSidecarVariant::Eip4844(older(1, 1)));
    assert_eq!(later, BlobSidecars::Eip7594(vec![newer(1, 2)]));
    let variant = BlobTransactionSidecarVariant::Eip4844(older(3, 1));
    assert!(variant.is_eip4844());
    assert!(!variant.is_eip7594());
    assert_eq!(variant.blob_count(), 3);
    let variant = BlobTransactionSidecarVariant::Eip7594(newer(4, 1));
    assert!(variant.is_eip7594());
    assert_eq!(variant.blob_count(), 4);
}

#[test]
fn builder_attributes_reject_wrong_prev_randao() {
    let rpc_attrs = attributes(1, [0u8; 32]);

    let err =
        LoadPayloadBuilderAttributes::try_new([0u8; 32], LoadPayloadAttributes { inner: rpc_attrs }, 3)
            .unwrap_err();
    assert!(err.to_string().contains("prev_randao"));
    assert_eq!(
        err.to_string(),
        "invalid prev_randao for Load: prev_randao must be constant 0x01 for Load"
    );
}

#[test]
fn builder_attributes_accept_constant_prev_randao() {
    let rpc_attrs = attributes(1, LOAD_PREVRANDAO);

    let attrs =
        LoadPayloadBuilderAttributes::try_new([0u8; 32], LoadPayloadAttributes { inner: rpc_attrs }, 3)
            .expect("valid attrs");
    assert_eq!(attrs.prev_randao().as_slice(), LOAD_PREVRANDAO);
}

#[test]
fn payload_attributes_reject_non_increasing_timestamp() {
    let rpc_attrs = attributes(1, LOAD_PREVRANDAO);

    let attrs =
        LoadPayloadBuilderAttributes::try_new([0u8; 32], LoadPayloadAttributes { inner: rpc_attrs }, 3)
            .expect("valid attrs");
    let err = validate_payload_attributes(1, &attrs).unwrap_err();
    assert!(matches!(err, LoadPayloadAttributesError::InvalidTimestamp(_)));
    assert_eq!(
        err.to_string(),
        "invalid timestamp for Load: timestamp 1 must be greater than parent 1"
    );
}

#[test]
fn payload_attributes_accept_future_timestamp() {
    let rpc_attrs = attributes(2, LOAD_PREVRANDAO);

    let attrs =
        LoadPayloadBuilderAttributes::try_new([0u8; 32], LoadPayloadAttributes { inner: rpc_attrs }, 3)
            .expect("valid attrs");
    assert!(validate_payload_attributes(1, &attrs).is_ok());
}

#[test]
fn unchecked_attributes_fail_on_randomness_first() {
    let attrs = LoadPayloadBuilderAttributes::try_new(
        [3u8; 32],
        LoadPayloadAttributes { inner: attributes(20, LOAD_PREVRANDAO) },
        3,
    )
    .unwrap();
    let mut inner = attrs.clone().into_inner();
    assert_eq!(inner.parent, [3u8; 32]);
    assert_eq!(inner.timestamp, 20);
    assert!(inner.withdrawals.is_empty());
    inner.prev_randao = [9u8; 32];
    inner.timestamp = 0;
    let unchecked = LoadPayloadBuilderAttributes::new(inner);
    let err = validate_payload_attributes(5, &unchecked).unwrap_err();
    assert!(matches!(err, LoadPayloadAttributesError::InvalidPrevRandao(_)));
    assert_eq!(validate_payload_attributes(19, &attrs), Ok(()));
    assert!(validate_payload_attributes(20, &attrs).is_err());
    assert!(validate_payload_attributes(u64::MAX, &attrs).is_err());
}

#[test]
fn attributes_carry_the_request_over() {
    let withdrawal = Withdrawal { index: 1, validator_index: 2, address: [4u8; 20], amount: 9 };
    let mut rpc = attributes(11, LOAD_PREVRANDAO);
    rpc.suggested_fee_recipient = [6u8; 20];
    rpc.withdrawals = Some(vec![withdrawal]);
    rpc.parent_beacon_block_root = Some([5u8; 32]);
    let wrapped = LoadPayloadAttributes { inner: rpc };
    assert_eq!(wrapped.timestamp(), 11);
    assert_eq!(wrapped.prev_randao(), LOAD_PREVRANDAO);
    assert_eq!(wrapped.withdrawals(), Some(&vec![withdrawal]));
    assert_eq!(wrapped.parent_beacon_block_root(), Some([5u8; 32]));
    let attrs = LoadPayloadBuilderAttributes::try_new([1u8; 32], wrapped, 3).unwrap();
    assert_eq!(attrs.parent(), [1u8; 32]);
    assert_eq!(attrs.timestamp(), 11);
    assert_eq!(attrs.suggested_fee_recipient(), [6u8; 20]);
    assert_eq!(attrs.withdrawals(), &vec![withdrawal]);
    assert_eq!(attrs.parent_beacon_block_root(), Some([5u8; 32]));
}

#[test]
fn local_attributes_follow_the_forks() {
    let mut spec = LoadChainSpec::default();
    spec.inner.genesis.config.cancun_time = Some(10);
    spec.inner.genesis.config.shanghai_time = Some(5);
    let builder = LoadLocalPayloadAttributesBuilder(spec);
    let early = builder.build(4, [3u8; 32]);
    assert_eq!(early.inner.timestamp, 4);
    assert_eq!(early.inner.prev_randao, LOAD_PREVRANDAO);
    assert_eq!(early.inner.suggested_fee_recipient, [0u8; 20]);
    assert_eq!(early.inner.withdrawals, None);
    assert_eq!(early.inner.parent_beacon_block_root, None);
    let middle = builder.build(5, [3u8; 32]);
    assert_eq!(middle.inner.withdrawals, Some(Vec::new()));
    assert_eq!(middle.inner.parent_beacon_block_root, None);
    let late = builder.build(10, [3u8; 32]);
    assert_eq!(late.inner.withdrawals, Some(Vec::new()));
    assert_eq!(late.inner.parent_beacon_block_root, Some([3u8; 32]));
}

#[test]
fn execution_data_reads_through_every_version() {
    let v1 = payload_v1(LOAD_PREVRANDAO);
    let data = LoadExecutionData::from_v1(v1.clone());
    assert_eq!(data.parent_hash(), [7u8; 32]);
    assert_eq!(data.block_hash(), [8u8; 32]);
    assert_eq!(data.block_number(), 4);
    assert_eq!(data.timestamp(), 9);
    assert_eq!(data.gas_used(), 21_000);
    assert_eq!(data.withdrawals(), None);
    assert_eq!(data.parent_beacon_block_root(), None);
    assert_eq!(data.sidecar().versioned_hashes(), None);
    assert!(data.sidecar().requests().is_none());
    assert_eq!(data.payload().prev_randao(), LOAD_PREVRANDAO);

    let with = ExecutionPayloadInputV2 { execution_payload: v1.clone(), withdrawals: Some(Vec::new()) };
    let data = LoadExecutionData::from_input_v2(with);
    assert!(matches!(data.payload(), ExecutionPayload::V2(_)));
    assert_eq!(data.withdrawals(), Some(&Vec::new()));
    let without = ExecutionPayloadInputV2 { execution_payload: v1.clone(), withdrawals: None };
    let data = LoadExecutionData::from_input_v2(without);
    assert!(matches!(data.payload(), ExecutionPayload::V1(_)));

    let data = LoadEngineTypes::block_to_payload(
        ExecutionPayload::V1(v1.clone()),
        ExecutionPayloadSidecar::none(),
    );
    assert_eq!(data.inner().payload, ExecutionPayload::V1(v1.clone()));
    let (payload, sidecar) = data.clone().into_parts();
    assert_eq!(payload, ExecutionPayload::V1(v1));
    assert_eq!(sidecar, ExecutionPayloadSidecar::none());
    assert_eq!(data.clone().into_execution_data().sidecar, sidecar);
}

#[test]
fn hash_of_requests_does_not_count_as_requests() {
    let v3 = ExecutionPayloadV3 {
        payload_inner: ExecutionPayloadV2 {
            payload_inner: payload_v1(LOAD_PREVRANDAO),
            withdrawals: Vec::new(),
        },
        blob_gas_used: 0,
        excess_blob_gas: 0,
    };
    let hashed =
        LoadExecutionData::v4(v3.clone(), vec![[1u8; 32]], [2u8; 32], RequestsOrHash::Hash([0u8; 32]));
    assert!(hashed.sidecar().requests().is_none());
    assert_eq!(hashed.sidecar().versioned_hashes(), Some(&vec![[1u8; 32]]));
    assert_eq!(hashed.parent_beacon_block_root(), Some([2u8; 32]));
    let listed = LoadExecutionData::v4(
        v3.clone(),
        Vec::new(),
        [2u8; 32],
        RequestsOrHash::Requests(vec![vec![1u8]]),
    );
    assert_eq!(listed.sidecar().requests(), Some(&vec![vec![1u8]]));
    let plain = LoadExecutionData::v3(v3, Vec::new(), [2u8; 32]);
    assert!(plain.sidecar().requests().is_none());
    assert!(plain.sidecar().prague.is_none());
}
