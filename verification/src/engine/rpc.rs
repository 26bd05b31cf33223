//! The network's rules at the engine API: limits on blob requests, the
//! constant randomness, the methods that wait for Osaka, and the
//! capabilities that the node advertises.

use vstd::prelude::*;
use vstd::string::StringExecFns;
use crate::chainspec::{LoadChainSpec, LOAD_MAX_BLOB_COUNT};
use crate::text::str_eq;
use crate::engine::payload::{
    prev_randao_message, CancunPayloadFields, ExecutionPayload, ExecutionPayloadV3,
    LoadExecutionData, LoadPayloadAttributes, PraguePayloadFields, RequestsOrHash,
};
use crate::engine::validator::{
    ensure_versioned_hashes_in_budget, EngineObjectValidationError, GuardViolation,
};
use crate::primitives::{hash_eq, B256};
use crate::LOAD_PREVRANDAO;

verus! {

/// Capability that tells of the network's blob budget.
pub const LOAD_CAP_BLOBS: &'static str = "load.blobs.1024";

/// Capability that tells of the network's constant randomness.
pub const LOAD_CAP_PREVRANDAO: &'static str = "load.prev_randao.0x01";

/// Error code of a request that names too many blobs.
pub const REQUEST_TOO_LARGE_CODE: i32 = -38004;

/// Error code of a method whose fork is not active.
pub const UNSUPPORTED_FORK_CODE: i32 = -38005;

/// Error code of a request with an invalid parameter.
pub const INVALID_PARAMS_CODE: i32 = -32602;

/// Why the engine API refuses a request.
#[derive(Clone, Debug, PartialEq, Eq)]
pub enum EngineApiError {
    /// The request names `len` blobs, more than may be asked for at once.
    BlobRequestTooLarge { len: usize },
    /// An object of the request is refused.
    EngineObjectValidationError(EngineObjectValidationError),
}

impl EngineApiError {
    /// The code by which a client tells the refusals apart.
    pub open spec fn code_of(self) -> i32 {
        match self {
            EngineApiError::BlobRequestTooLarge { .. } => REQUEST_TOO_LARGE_CODE,
            EngineApiError::EngineObjectValidationError(
                EngineObjectValidationError::UnsupportedFork,
            ) => UNSUPPORTED_FORK_CODE,
            EngineApiError::EngineObjectValidationError(
                EngineObjectValidationError::InvalidParams(_),
            ) => INVALID_PARAMS_CODE,
        }
    }

    /// The code by which a client tells the refusals apart: one for a
    /// request that is too large, one for a method whose fork is not
    /// active, one for an invalid parameter.
    pub fn code(&self) -> (r: i32)
        ensures
            r == self.code_of(),
    {
        match self {
            EngineApiError::BlobRequestTooLarge { .. } => REQUEST_TOO_LARGE_CODE,
            EngineApiError::EngineObjectValidationError(
                EngineObjectValidationError::UnsupportedFork,
            ) => UNSUPPORTED_FORK_CODE,
            EngineApiError::EngineObjectValidationError(
                EngineObjectValidationError::InvalidParams(_),
            ) => INVALID_PARAMS_CODE,
        }
    }
}

/// A request for blobs may name as many as a block may carry, and no more;
/// one that names more is too large.
pub fn validate_blob_request(versioned_hashes: &[B256]) -> (r: Result<(), EngineApiError>)
    ensures
        r is Ok <==> versioned_hashes@.len() <= LOAD_MAX_BLOB_COUNT,
        r matches Err(e) ==> e == (EngineApiError::BlobRequestTooLarge {
            len: versioned_hashes@.len() as usize,
        }),
{
    if versioned_hashes.len() > LOAD_MAX_BLOB_COUNT as usize {
        return Err(EngineApiError::BlobRequestTooLarge { len: versioned_hashes.len() });
    }
    Ok(())
}

/// The randomness of a request is the network's constant; any other is an
/// invalid parameter.
pub fn ensure_load_prev_randao(prev_randao: &B256) -> (r: Result<(), EngineApiError>)
    ensures
        r is Ok <==> prev_randao@ == LOAD_PREVRANDAO@,
        r is Err ==> (r matches Err(
            EngineApiError::EngineObjectValidationError(
                EngineObjectValidationError::InvalidParams(message),
            ),
        ) && message@ == prev_randao_message()),
{
    if hash_eq(prev_randao, &LOAD_PREVRANDAO) {
        Ok(())
    } else {
        Err(
            EngineApiError::EngineObjectValidationError(
                EngineObjectValidationError::InvalidParams(
                    String::from_str("prev_randao must be constant 0x01 for Load"),
                ),
            ),
        )
    }
}

/// The randomness of a payload of the third version.
pub fn payload_v3_prev_randao(payload: &ExecutionPayloadV3) -> (r: B256)
    ensures
        r == payload.payload_inner.payload_inner.prev_randao,
{
    payload.payload_inner.payload_inner.prev_randao
}

/// What to do with a request for blobs that passed the checks.
#[derive(Clone, Copy, Debug, PartialEq, Eq, Structural)]
pub enum BlobsRequest {
    /// Look the blobs up in the pool.
    Fetch,
    /// The node is syncing: answer with nothing, without looking.
    Syncing,
}

/// Whether `c` is one of `list`.
pub open spec fn lists(list: Seq<String>, c: Seq<char>) -> bool {
    exists|i: int| 0 <= i < list.len() && (#[trigger] list[i])@ == c
}

/// Whether no capability stands twice in `list`.
pub open spec fn distinct(list: Seq<String>) -> bool {
    forall|i: int, j: int|
        0 <= i < j < list.len() ==> (#[trigger] list[i])@ != (#[trigger] list[j])@
}

fn has_capability(list: &Vec<String>, capability: &str) -> (r: bool)
    ensures
        r == lists(list@, capability@),
{
    let mut i: usize = 0;
    while i < list.len()
        invariant
            i <= list@.len(),
            forall|j: int| 0 <= j < i ==> (#[trigger] list@[j])@ != capability@,
        decreases list@.len() - i,
    {
        if str_eq(list[i].as_str(), capability) {
            return true;
        }
        i += 1;
    }
    false
}

/// Adds `capability` to `list` unless it is there already.
fn add_capability(list: &mut Vec<String>, capability: &str)
    requires
        distinct(old(list)@),
    ensures
        distinct(final(list)@),
        forall|c: Seq<char>|
            #[trigger] lists(final(list)@, c) <==> (lists(old(list)@, c) || c == capability@),
        lists(old(list)@, capability@) ==> final(list)@ == old(list)@,
        !lists(old(list)@, capability@) ==> final(list)@.len() == old(list)@.len() + 1
            && final(list)@.drop_last() == old(list)@ && final(list)@.last()@ == capability@,
{
    if !has_capability(list, capability) {
        let ghost before = list@;
        list.push(String::from_str(capability));
        proof {
            assert(list@.drop_last() =~= before);
            assert forall|c: Seq<char>| lists(list@, c) <==> (lists(before, c) || c
                == capability@) by {
                if lists(before, c) {
                    let i = choose|i: int| 0 <= i < before.len() && (#[trigger] before[i])@ == c;
                    assert(list@[i]@ == c);
                }
                if c == capability@ {
                    assert(list@[before.len() as int]@ == c);
                }
                if lists(list@, c) {
                    let i = choose|i: int| 0 <= i < list@.len() && (#[trigger] list@[i])@ == c;
                    if i < before.len() {
                        assert(before[i]@ == c);
                    }
                }
            }
            assert forall|i: int, j: int| 0 <= i < j < list@.len() implies (#[trigger] list@[i])@
                != (#[trigger] list@[j])@ by {
                if j < before.len() {
                    assert(before[i]@ != before[j]@);
                } else {
                    assert(before[i]@ != capability@);
                }
            }
        }
    }
}

/// Adds each of `more` to `list` unless it is there already.
fn add_capabilities(list: &mut Vec<String>, more: &Vec<String>)
    requires
        distinct(old(list)@),
    ensures
        distinct(final(list)@),
        forall|c: Seq<char>|
            #[trigger] lists(final(list)@, c) <==> (lists(old(list)@, c) || lists(more@, c)),
{
    let ghost start = list@;
    let mut i: usize = 0;
    while i < more.len()
        invariant
            i <= more@.len(),
            distinct(list@),
            forall|c: Seq<char>|
                #[trigger] lists(list@, c) <==> (lists(start, c) || lists(more@.take(i as int), c)),
        decreases more@.len() - i,
    {
        let ghost before = list@;
        add_capability(list, more[i].as_str());
        proof {
            let taken = more@.take(i as int);
            let next = more@.take(i + 1);
            assert forall|c: Seq<char>| lists(list@, c) <==> (lists(start, c) || lists(next, c)) by {
                assert(lists(list@, c) <==> (lists(before, c) || c == more@[i as int]@));
                assert(lists(before, c) <==> (lists(start, c) || lists(taken, c)));
                if lists(taken, c) {
                    let k = choose|k: int| 0 <= k < taken.len() && (#[trigger] taken[k])@ == c;
                    assert(next[k]@ == c);
                }
                if c == more@[i as int]@ {
                    assert(next[i as int]@ == c);
                }
                if lists(next, c) {
                    let k = choose|k: int| 0 <= k < next.len() && (#[trigger] next[k])@ == c;
                    if k < i {
                        assert(taken[k]@ == c);
                    } else {
                        assert(next[k] == more@[i as int]);
                    }
                }
            }
        }
        i += 1;
    }
    proof {
        assert(more@.take(more@.len() as int) =~= more@);
    }
}

/// The rule that a payload handed to `engine_newPayload` breaks first, if
/// any: it declares more blob hashes than the budget, or its randomness is
/// not the network's constant.
pub open spec fn inbound_violation(
    payload: ExecutionPayloadV3,
    versioned_hashes: Seq<B256>,
) -> Option<GuardViolation> {
    if versioned_hashes.len() > LOAD_MAX_BLOB_COUNT {
        Some(GuardViolation::TooManyVersionedHashes(versioned_hashes.len()))
    } else if payload.payload_inner.payload_inner.prev_randao@ != LOAD_PREVRANDAO@ {
        Some(GuardViolation::InvalidPrevRandao)
    } else {
        None
    }
}

/// The network's rules at the engine API of a node on the chain given.
#[derive(Clone, Debug)]
pub struct LoadEngineApi {
    chain_spec: LoadChainSpec,
}

impl View for LoadEngineApi {
    type V = LoadChainSpec;

    closed spec fn view(&self) -> LoadChainSpec {
        self.chain_spec
    }
}

impl LoadEngineApi {
    pub fn new(chain_spec: LoadChainSpec) -> (r: Self)
        ensures
            r@ == chain_spec,
    {
        Self { chain_spec }
    }

    /// Takes in a payload of `engine_newPayloadV3`: it declares no more
    /// blob hashes than the budget, and its randomness is the network's
    /// constant. A payload that breaks either rule is refused for an
    /// invalid parameter; the number of hashes is looked at first.
    pub fn new_payload_v3(
        &self,
        payload: ExecutionPayloadV3,
        versioned_hashes: Vec<B256>,
        parent_beacon_block_root: B256,
    ) -> (r: Result<LoadExecutionData, EngineApiError>)
        ensures
            r is Ok <==> inbound_violation(payload, versioned_hashes@) is None,
            r is Err ==> (r matches Err(
                EngineApiError::EngineObjectValidationError(
                    EngineObjectValidationError::InvalidParams(message),
                ),
            ) && message@ == inbound_violation(payload, versioned_hashes@)->0.message()),
            r is Err ==> r->Err_0.code_of() == INVALID_PARAMS_CODE,
            r matches Ok(data) ==> {
                &&& data@.payload == ExecutionPayload::V3(payload)
                &&& data@.sidecar.cancun == Some(
                    CancunPayloadFields { parent_beacon_block_root, versioned_hashes },
                )
                &&& data@.sidecar.prague is None
            },
    {
        match ensure_versioned_hashes_in_budget(versioned_hashes.as_slice()) {
            Ok(()) => {},
            Err(e) => {
                return Err(EngineApiError::EngineObjectValidationError(e));
            },
        }
        let prev_randao = payload_v3_prev_randao(&payload);
        match ensure_load_prev_randao(&prev_randao) {
            Ok(()) => {},
            Err(e) => {
                return Err(e);
            },
        }
        Ok(LoadExecutionData::v3(payload, versioned_hashes, parent_beacon_block_root))
    }

    /// Takes in a payload of `engine_newPayloadV4`, by the rules of the
    /// third version.
    pub fn new_payload_v4(
        &self,
        payload: ExecutionPayloadV3,
        versioned_hashes: Vec<B256>,
        parent_beacon_block_root: B256,
        execution_requests: RequestsOrHash,
    ) -> (r: Result<LoadExecutionData, EngineApiError>)
        ensures
            r is Ok <==> inbound_violation(payload, versioned_hashes@) is None,
            r is Err ==> (r matches Err(
                EngineApiError::EngineObjectValidationError(
                    EngineObjectValidationError::InvalidParams(message),
                ),
            ) && message@ == inbound_violation(payload, versioned_hashes@)->0.message()),
            r is Err ==> r->Err_0.code_of() == INVALID_PARAMS_CODE,
            r matches Ok(data) ==> {
                &&& data@.payload == ExecutionPayload::V3(payload)
                &&& data@.sidecar.cancun == Some(
                    CancunPayloadFields { parent_beacon_block_root, versioned_hashes },
                )
                &&& data@.sidecar.prague == Some(
                    PraguePayloadFields { requests: execution_requests },
                )
            },
    {
        match ensure_versioned_hashes_in_budget(versioned_hashes.as_slice()) {
            Ok(()) => {},
            Err(e) => {
                return Err(EngineApiError::EngineObjectValidationError(e));
            },
        }
        let prev_randao = payload_v3_prev_randao(&payload);
        match ensure_load_prev_randao(&prev_randao) {
            Ok(()) => {},
            Err(e) => {
                return Err(e);
            },
        }
        Ok(
            LoadExecutionData::v4(
                payload,
                versioned_hashes,
                parent_beacon_block_root,
                execution_requests,
            ),
        )
    }

    /// Takes in the attributes of `engine_forkchoiceUpdatedV3`, if it
    /// brings any: their randomness is the network's constant.
    pub fn fork_choice_updated_v3(&self, payload_attributes: Option<&LoadPayloadAttributes>) -> (r:
        Result<(), EngineApiError>)
        ensures
            r is Ok <==> (payload_attributes matches Some(attrs) ==> attrs.inner.prev_randao@
                == LOAD_PREVRANDAO@),
            r matches Err(e) ==> e.code_of() == INVALID_PARAMS_CODE,
    {
        if let Some(attrs) = payload_attributes {
            let prev_randao = attrs.prev_randao();
            return ensure_load_prev_randao(&prev_randao);
        }
        Ok(())
    }

    /// Admits a request of `engine_getBlobsV1`: it names no more blobs than
    /// a block may carry.
    pub fn get_blobs_v1(&self, versioned_hashes: &[B256]) -> (r: Result<BlobsRequest, EngineApiError>)
        ensures
            r is Ok <==> versioned_hashes@.len() <= LOAD_MAX_BLOB_COUNT,
            r matches Ok(request) ==> request == BlobsRequest::Fetch,
            r matches Err(e) ==> e.code_of() == REQUEST_TOO_LARGE_CODE,
    {
        match validate_blob_request(versioned_hashes) {
            Ok(()) => Ok(BlobsRequest::Fetch),
            Err(e) => Err(e),
        }
    }

    /// Admits a request of `engine_getBlobsV2` at the time `now`: the
    /// method is not supported before Osaka, and the request names no more
    /// blobs than a block may carry.
    pub fn get_blobs_v2(&self, now: u64, versioned_hashes: &[B256]) -> (r: Result<
        BlobsRequest,
        EngineApiError,
    >)
        ensures
            r is Ok <==> self@.osaka_active(now) && versioned_hashes@.len()
                <= LOAD_MAX_BLOB_COUNT,
            r matches Ok(request) ==> request == BlobsRequest::Fetch,
            r matches Err(e) ==> e.code_of() == (if !self@.osaka_active(now) {
                UNSUPPORTED_FORK_CODE
            } else {
                REQUEST_TOO_LARGE_CODE
            }),
    {
        if !self.chain_spec.is_osaka_active_at_timestamp(now) {
            return Err(
                EngineApiError::EngineObjectValidationError(
                    EngineObjectValidationError::UnsupportedFork,
                ),
            );
        }
        match validate_blob_request(versioned_hashes) {
            Ok(()) => Ok(BlobsRequest::Fetch),
            Err(e) => Err(e),
        }
    }

    /// Admits a request of `engine_getBlobsV3` at the time `now`, by the
    /// rules of the second version; a node that is syncing answers with
    /// nothing.
    pub fn get_blobs_v3(&self, now: u64, versioned_hashes: &[B256], is_syncing: bool) -> (r:
        Result<BlobsRequest, EngineApiError>)
        ensures
            r is Ok <==> self@.osaka_active(now) && versioned_hashes@.len()
                <= LOAD_MAX_BLOB_COUNT,
            r matches Ok(request) ==> request == (if is_syncing {
                BlobsRequest::Syncing
            } else {
                BlobsRequest::Fetch
            }),
            r matches Err(e) ==> e.code_of() == (if !self@.osaka_active(now) {
                UNSUPPORTED_FORK_CODE
            } else {
                REQUEST_TOO_LARGE_CODE
            }),
    {
        if !self.chain_spec.is_osaka_active_at_timestamp(now) {
            return Err(
                EngineApiError::EngineObjectValidationError(
                    EngineObjectValidationError::UnsupportedFork,
                ),
            );
        }
        match validate_blob_request(versioned_hashes) {
            Ok(()) => {},
            Err(e) => {
                return Err(e);
            },
        }
        if is_syncing {
            return Ok(BlobsRequest::Syncing);
        }
        Ok(BlobsRequest::Fetch)
    }

    /// The capabilities that the node answers with: those of the base
    /// protocol, the two of the network, the node's version, and those
    /// that the peer sent; each once.
    pub fn exchange_capabilities(
        &self,
        base: &Vec<String>,
        client_version: &str,
        capabilities: &Vec<String>,
    ) -> (r: Vec<String>)
        ensures
            distinct(r@),
            forall|c: Seq<char>|
                lists(r@, c) <==> (lists(base@, c) || c == LOAD_CAP_BLOBS@ || c
                    == LOAD_CAP_PREVRANDAO@ || c == client_version@ || lists(capabilities@, c)),
    {
        let mut caps: Vec<String> = Vec::new();
        let ghost c0 = caps@;
        add_capabilities(&mut caps, base);
        let ghost c1 = caps@;
        add_capability(&mut caps, LOAD_CAP_BLOBS);
        let ghost c2 = caps@;
        add_capability(&mut caps, LOAD_CAP_PREVRANDAO);
        let ghost c3 = caps@;
        add_capability(&mut caps, client_version);
        let ghost c4 = caps@;
        add_capabilities(&mut caps, capabilities);
        proof {
            assert forall|c: Seq<char>|
                lists(caps@, c) <==> (lists(base@, c) || c == LOAD_CAP_BLOBS@ || c
                    == LOAD_CAP_PREVRANDAO@ || c == client_version@ || lists(
                    capabilities@,
                    c,
                )) by {
                assert(!lists(c0, c));
                assert(lists(c1, c) <==> (lists(c0, c) || lists(base@, c)));
                assert(lists(c2, c) <==> (lists(c1, c) || c == LOAD_CAP_BLOBS@));
                assert(lists(c3, c) <==> (lists(c2, c) || c == LOAD_CAP_PREVRANDAO@));
                assert(lists(c4, c) <==> (lists(c3, c) || c == client_version@));
                assert(lists(caps@, c) <==> (lists(c4, c) || lists(capabilities@, c)));
            }
        }
        caps
    }
}

/// Engine API builder specialized for Load.
#[derive(Clone, Debug)]
pub struct LoadEngineApiBuilder<PVB> {
    payload_validator_builder: PVB,
}

impl<PVB> LoadEngineApiBuilder<PVB> {
    /// What builds the payload validator of the engine API.
    pub closed spec fn validator_builder(self) -> PVB {
        self.payload_validator_builder
    }

    pub fn new(payload_validator_builder: PVB) -> (r: Self)
        ensures
            r.validator_builder() == payload_validator_builder,
    {
        Self { payload_validator_builder }
    }

    /// Hands out what builds the payload validator.
    pub fn into_validator_builder(self) -> (r: PVB)
        ensures
            r == self.validator_builder(),
    {
        self.payload_validator_builder
    }

    /// The capabilities of the engine API that is built: those of the base
    /// protocol and the two of the network, each once.
    pub fn capabilities(&self, base: &Vec<String>) -> (r: Vec<String>)
        ensures
            distinct(r@),
            forall|c: Seq<char>|
                lists(r@, c) <==> (lists(base@, c) || c == LOAD_CAP_BLOBS@ || c
                    == LOAD_CAP_PREVRANDAO@),
    {
        let mut caps: Vec<String> = Vec::new();
        add_capabilities(&mut caps, base);
        add_capability(&mut caps, LOAD_CAP_BLOBS);
        add_capability(&mut caps, LOAD_CAP_PREVRANDAO);
        caps
    }
}

} // verus!
