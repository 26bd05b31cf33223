use load_reth::chainspec::{LoadChainSpec, LOAD_MAX_BLOB_COUNT};
use load_reth::engine::payload::{
    CancunPayloadFields, ExecutionPayload, ExecutionPayloadSidecar, ExecutionPayloadV1,
    ExecutionPayloadV2, ExecutionPayloadV3, LoadExecutionData, LoadPayloadAttributes,
    PayloadAttributes, RequestsOrHash,
};
use load_reth::engine::validator::{
    EngineApiMessageVersion, EngineObjectValidationError, LoadEngineValidator,
    LoadEngineValidatorBuilder, PayloadOrAttributes,
};
use load_reth::primitives::U256;
use load_reth::LOAD_PREVRANDAO;

fn payload_v3(prev_randao: [u8; 32]) -> ExecutionPayloadV3 {
    let payload_v1 = ExecutionPayloadV1 {
        parent_hash: Default::default(),
        fee_recipient: [0u8; 20],
        state_root: Default::default(),
        receipts_root: Default::default(),
        logs_bloom: [0u8; 256],
        prev_randao,
        block_number: 1,
        gas_limit: 30_000_000,
        gas_used: 0,
        timestamp: 1,
        extra_data: Vec::new(),
        base_fee_per_gas: U256::zero(),
        block_hash: Default::default(),
        transactions: Vec::new(),
    };

    let payload_v2 = ExecutionPayloadV2 { payload_inner: payload_v1, withdrawals: Vec::new() };
    ExecutionPayloadV3 { payload_inner: payload_v2, blob_gas_used: 0, excess_blob_gas: 0 }
}

fn message(result: Result<(), EngineObjectValidationError>) -> String {
    match result {
        Err(EngineObjectValidationError::InvalidParams(message)) => message,
        _ => panic!("the object should be refused for a parameter"),
    }
}

#[test]
fn build_validator() {
    let spec = LoadChainSpec::default();
    let validator = LoadEngineValidator::new(spec.clone());
    assert!(*validator.chain_spec() == spec);
    let built = LoadEngineValidatorBuilder::default().build(spec.clone());
    assert!(*built.chain_spec() == spec);
}

#[test]
fn rejects_payload_with_too_many_versioned_hashes() {
    let payload_v3 = payload_v3(Default::default());

    let versioned_hashes = vec![[0u8; 32]; (LOAD_MAX_BLOB_COUNT as usize) + 1];
    let sidecar = ExecutionPayloadSidecar::v3(CancunPayloadFields {
        parent_beacon_block_root: [0u8; 32],
        versioned_hashes,
    });

    let execution_data = LoadExecutionData::new(ExecutionPayload::V3(payload_v3), sidecar);

    let validator = LoadEngineValidator::new(LoadChainSpec::default());
    let result = validator.validate_version_specific_fields(
        EngineApiMessageVersion::V3,
        PayloadOrAttributes::from_execution_payload(&execution_data),
    );

    assert!(matches!(result, Err(EngineObjectValidationError::InvalidParams(_))));
}

#[test]
fn payload_with_too_many_versioned_hashes_is_rejected() {
    let validator = LoadEngineValidator::new(LoadChainSpec::default());
    let over = LoadExecutionData::v3(payload_v3(LOAD_PREVRANDAO), vec![[0u8; 32]; 1025], [0u8; 32]);
    let result = validator.validate_version_specific_fields(
        EngineApiMessageVersion::V3,
        PayloadOrAttributes::from_execution_payload(&over),
    );
    assert_eq!(message(result), "too many blob versioned hashes: 1025 (max 1024)");
    let full = LoadExecutionData::v3(payload_v3(LOAD_PREVRANDAO), vec![[0u8; 32]; 1024], [0u8; 32]);
    let result = validator.validate_version_specific_fields(
        EngineApiMessageVersion::V3,
        PayloadOrAttributes::from_execution_payload(&full),
    );
    assert_eq!(result, Ok(()));
}

#[test]
fn rejects_payload_with_wrong_prev_randao() {
    let payload_v3 = payload_v3([0u8; 32]); // wrong

    let sidecar = ExecutionPayloadSidecar::v3(CancunPayloadFields {
        parent_beacon_block_root: [0u8; 32],
        versioned_hashes: Vec::new(),
    });

    let execution_data = LoadExecutionData::new(ExecutionPayload::V3(payload_v3), sidecar);

    let mut spec = LoadChainSpec::default();
    spec.inner.genesis.config.prague_time = Some(1_000);
    let validator = LoadEngineValidator::new(spec);
    let result = validator.validate_version_specific_fields(
        EngineApiMessageVersion::V3,
        PayloadOrAttributes::from_execution_payload(&execution_data),
    );

    assert!(matches!(result, Err(EngineObjectValidationError::InvalidParams(_))));
    assert_eq!(message(result), "prev_randao must be constant 0x01 for Load");
}

#[test]
fn prague_fields_rejected_before_activation() {
    let payload_v3 = payload_v3(LOAD_PREVRANDAO);

    let execution_data = LoadExecutionData::v4(
        payload_v3,
        Vec::new(),
        [0u8; 32],
        RequestsOrHash::Requests(Vec::new()),
    );

    let mut spec = LoadChainSpec::default();
    spec.inner.genesis.config.prague_time = Some(1_000);
    assert!(!spec.is_prague_active_at_timestamp(1));

    let validator = LoadEngineValidator::new(spec);
    let result = validator.validate_version_specific_fields(
        EngineApiMessageVersion::V3,
        PayloadOrAttributes::from_execution_payload(&execution_data),
    );

    assert!(matches!(result, Err(EngineObjectValidationError::InvalidParams(_))));
    assert_eq!(message(result), "Prague payload fields not active at timestamp 1");
}

#[test]
fn prague_requests_allowed_after_activation() {
    let payload_v3 = payload_v3(LOAD_PREVRANDAO);

    let execution_data = LoadExecutionData::v4(
        payload_v3,
        Vec::new(),
        [0u8; 32],
        RequestsOrHash::Requests(Vec::new()),
    );

    let spec = LoadChainSpec::default();
    assert!(spec.is_prague_active_at_timestamp(1));
    let validator = LoadEngineValidator::new(spec);
    let result = validator.validate_version_specific_fields(
        EngineApiMessageVersion::V4,
        PayloadOrAttributes::from_execution_payload(&execution_data),
    );

    assert!(result.is_ok());
}

#[test]
fn prague_requests_rejected_before_activation() {
    let mut spec = LoadChainSpec::default();
    spec.inner.genesis.config.prague_time = Some(1_000);
    let validator = LoadEngineValidator::new(spec);
    let mut payload = payload_v3(LOAD_PREVRANDAO);
    payload.payload_inner.payload_inner.timestamp = 999;
    let early = LoadExecutionData::v4(
        payload.clone(),
        vec![[1u8; 32]],
        [0u8; 32],
        RequestsOrHash::Requests(vec![vec![0u8, 1u8]]),
    );
    let result = validator.validate_version_specific_fields(
        EngineApiMessageVersion::V4,
        PayloadOrAttributes::from_execution_payload(&early),
    );
    assert_eq!(message(result), "Prague payload fields not active at timestamp 999");
    // the hash of the requests alone is no list of requests
    let hashed =
        LoadExecutionData::v4(payload, vec![[1u8; 32]], [0u8; 32], RequestsOrHash::Hash([0u8; 32]));
    let result = validator.validate_version_specific_fields(
        EngineApiMessageVersion::V4,
        PayloadOrAttributes::from_execution_payload(&hashed),
    );
    assert_eq!(result, Ok(()));
}

#[test]
fn prague_requests_accepted_after_activation() {
    let mut spec = LoadChainSpec::default();
    spec.inner.genesis.config.prague_time = Some(1_000);
    let validator = LoadEngineValidator::new(spec);
    let mut payload = payload_v3(LOAD_PREVRANDAO);
    payload.payload_inner.payload_inner.timestamp = 1_000;
    let data = LoadExecutionData::v4(
        payload,
        vec![[1u8; 32]],
        [0u8; 32],
        RequestsOrHash::Requests(vec![vec![0u8, 1u8]]),
    );
    let object = PayloadOrAttributes::from_execution_payload(&data);
    assert_eq!(object.timestamp(), 1_000);
    let result = validator.validate_version_specific_fields(EngineApiMessageVersion::V4, object);
    assert_eq!(result, Ok(()));
    // and it passes again
    let result = validator.validate_version_specific_fields(EngineApiMessageVersion::V4, object);
    assert_eq!(result, Ok(()));
}

#[test]
fn attributes_are_guarded_by_their_randomness() {
    let validator = LoadEngineValidator::new(LoadChainSpec::default());
    let mut attributes = LoadPayloadAttributes {
        inner: PayloadAttributes {
            timestamp: 3,
            prev_randao: LOAD_PREVRANDAO,
            suggested_fee_recipient: [0u8; 20],
            withdrawals: Some(Vec::new()),
            parent_beacon_block_root: Some([0u8; 32]),
        },
    };
    assert_eq!(
        validator.ensure_well_formed_attributes(EngineApiMessageVersion::V3, &attributes),
        Ok(())
    );
    assert_eq!(
        validator.validate_version_specific_fields(
            EngineApiMessageVersion::V3,
            PayloadOrAttributes::from_attributes(&attributes),
        ),
        Ok(())
    );
    attributes.inner.prev_randao[0] = 1;
    assert_eq!(
        message(validator.ensure_well_formed_attributes(EngineApiMessageVersion::V3, &attributes)),
        "prev_randao must be constant 0x01 for Load"
    );
    assert_eq!(
        message(validator.validate_version_specific_fields(
            EngineApiMessageVersion::V3,
            PayloadOrAttributes::from_attributes(&attributes),
        )),
        "prev_randao must be constant 0x01 for Load"
    );
}
