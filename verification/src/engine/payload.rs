//! Payload attributes and built payloads, with the network's invariants:
//! `prev_randao` is the constant `0x01`, a payload handed out carries blob
//! sidecars of the older scheme only, and no more blobs than the budget.

use vstd::prelude::*;
use vstd::string::StringExecFns;
use crate::chainspec::{LoadChainSpec, LOAD_MAX_BLOB_COUNT};
use crate::primitives::{hash_eq, Address, B256, U256};
use crate::text::{decimal, decimal_string};
use crate::LOAD_PREVRANDAO;

verus! {

/// What `validate_prev_randao` says of any other value.
pub open spec fn prev_randao_message() -> Seq<char> {
    "prev_randao must be constant 0x01 for Load"@
}

/// Validate `prev_randao` for Load (must be constant 0x01).
pub fn validate_prev_randao(prev_randao: B256) -> (r: Result<(), String>)
    ensures
        r is Ok <==> prev_randao@ == LOAD_PREVRANDAO@,
        r matches Err(message) ==> message@ == prev_randao_message(),
{
    if hash_eq(&prev_randao, &LOAD_PREVRANDAO) {
        Ok(())
    } else {
        Err(String::from_str("prev_randao must be constant 0x01 for Load"))
    }
}

/// Validation errors for Load payload attributes.
#[derive(Clone, Debug, PartialEq, Eq)]
pub enum LoadPayloadAttributesError {
    /// The randomness is not the network's constant.
    InvalidPrevRandao(String),
    /// The timestamp is not after the parent's.
    InvalidTimestamp(String),
}

impl LoadPayloadAttributesError {
    /// The text of the error.
    pub open spec fn text(self) -> Seq<char> {
        match self {
            LoadPayloadAttributesError::InvalidPrevRandao(detail) => {
                "invalid prev_randao for Load: "@ + detail@
            },
            LoadPayloadAttributesError::InvalidTimestamp(detail) => {
                "invalid timestamp for Load: "@ + detail@
            },
        }
    }

    /// The text of the error: what is wrong, a colon, and the detail.
    pub fn to_string(&self) -> (r: String)
        ensures
            r@ == self.text(),
    {
        match self {
            LoadPayloadAttributesError::InvalidPrevRandao(detail) => {
                String::from_str("invalid prev_randao for Load: ").concat(detail.as_str())
            },
            LoadPayloadAttributesError::InvalidTimestamp(detail) => {
                String::from_str("invalid timestamp for Load: ").concat(detail.as_str())
            },
        }
    }
}

/// A withdrawal from the consensus layer.
#[derive(Clone, Copy, Debug, PartialEq, Eq)]
pub struct Withdrawal {
    pub index: u64,
    pub validator_index: u64,
    pub address: Address,
    pub amount: u64,
}

/// Payload attributes as they come over the wire.
#[derive(Clone, Debug, PartialEq, Eq)]
pub struct PayloadAttributes {
    /// Timestamp of the block to build.
    pub timestamp: u64,
    /// Randomness of the block to build.
    pub prev_randao: B256,
    /// Who receives the fees.
    pub suggested_fee_recipient: Address,
    /// Withdrawals to include; set from Shanghai on.
    pub withdrawals: Option<Vec<Withdrawal>>,
    /// Root of the parent beacon block; set from Cancun on.
    pub parent_beacon_block_root: Option<B256>,
}

/// Load RPC payload attributes (wrapper over Ethereum attributes).
#[derive(Clone, Debug, PartialEq, Eq)]
pub struct LoadPayloadAttributes {
    pub inner: PayloadAttributes,
}

impl LoadPayloadAttributes {
    pub fn prev_randao(&self) -> (r: B256)
        ensures
            r == self.inner.prev_randao,
    {
        self.inner.prev_randao
    }

    pub fn timestamp(&self) -> (r: u64)
        ensures
            r == self.inner.timestamp,
    {
        self.inner.timestamp
    }

    pub fn withdrawals(&self) -> (r: Option<&Vec<Withdrawal>>)
        ensures
            r is Some <==> self.inner.withdrawals is Some,
            r matches Some(w) ==> *w == self.inner.withdrawals->0,
    {
        self.inner.withdrawals.as_ref()
    }

    pub fn parent_beacon_block_root(&self) -> (r: Option<B256>)
        ensures
            r == self.inner.parent_beacon_block_root,
    {
        self.inner.parent_beacon_block_root
    }
}

/// The attributes of a build job.
#[derive(Clone, Debug, PartialEq, Eq)]
pub struct EthPayloadBuilderAttributes {
    /// Hash of the parent block.
    pub parent: B256,
    /// Timestamp of the block to build.
    pub timestamp: u64,
    /// Who receives the fees.
    pub suggested_fee_recipient: Address,
    /// Randomness of the block to build.
    pub prev_randao: B256,
    /// Withdrawals to include.
    pub withdrawals: Vec<Withdrawal>,
    /// Root of the parent beacon block.
    pub parent_beacon_block_root: Option<B256>,
}

/// Load payload builder attributes that validate Load invariants.
#[derive(Clone, Debug, PartialEq, Eq)]
pub struct LoadPayloadBuilderAttributes {
    inner: EthPayloadBuilderAttributes,
}

impl View for LoadPayloadBuilderAttributes {
    type V = EthPayloadBuilderAttributes;

    closed spec fn view(&self) -> EthPayloadBuilderAttributes {
        self.inner
    }
}

/// The withdrawals of a request: those it names, or none.
pub open spec fn withdrawals_or_empty(withdrawals: Option<Vec<Withdrawal>>) -> Seq<Withdrawal> {
    match withdrawals {
        Some(list) => list@,
        None => Seq::empty(),
    }
}

impl LoadPayloadBuilderAttributes {
    /// Wraps attributes without checking them.
    pub fn new(inner: EthPayloadBuilderAttributes) -> (r: Self)
        ensures
            r@ == inner,
    {
        Self { inner }
    }

    pub fn into_inner(self) -> (r: EthPayloadBuilderAttributes)
        ensures
            r == self@,
    {
        self.inner
    }

    /// Builds the attributes of a job from a request on top of `parent`.
    /// Fails exactly when the randomness of the request is not the
    /// network's constant. `version` is the version of the request; it
    /// enters the job's identifier only, which the caller derives.
    pub fn try_new(parent: B256, rpc_payload_attributes: LoadPayloadAttributes, version: u8) -> (r:
        Result<Self, LoadPayloadAttributesError>)
        ensures
            r is Err <==> rpc_payload_attributes.inner.prev_randao@ != LOAD_PREVRANDAO@,
            r is Err ==> (r matches Err(LoadPayloadAttributesError::InvalidPrevRandao(message))
                && message@ == prev_randao_message()),
            r matches Ok(attrs) ==> {
                &&& attrs@.parent == parent
                &&& attrs@.timestamp == rpc_payload_attributes.inner.timestamp
                &&& attrs@.suggested_fee_recipient
                    == rpc_payload_attributes.inner.suggested_fee_recipient
                &&& attrs@.prev_randao == rpc_payload_attributes.inner.prev_randao
                &&& attrs@.withdrawals@ == withdrawals_or_empty(
                    rpc_payload_attributes.inner.withdrawals,
                )
                &&& attrs@.parent_beacon_block_root
                    == rpc_payload_attributes.inner.parent_beacon_block_root
            },
    {
        let attributes = rpc_payload_attributes.inner;
        let withdrawals = match attributes.withdrawals {
            Some(list) => list,
            None => Vec::new(),
        };
        let inner = EthPayloadBuilderAttributes {
            parent,
            timestamp: attributes.timestamp,
            suggested_fee_recipient: attributes.suggested_fee_recipient,
            prev_randao: attributes.prev_randao,
            withdrawals,
            parent_beacon_block_root: attributes.parent_beacon_block_root,
        };
        match validate_prev_randao(inner.prev_randao) {
            Ok(()) => Ok(Self::new(inner)),
            Err(message) => Err(LoadPayloadAttributesError::InvalidPrevRandao(message)),
        }
    }

    pub fn parent(&self) -> (r: B256)
        ensures
            r == self@.parent,
    {
        self.inner.parent
    }

    pub fn timestamp(&self) -> (r: u64)
        ensures
            r == self@.timestamp,
    {
        self.inner.timestamp
    }

    pub fn parent_beacon_block_root(&self) -> (r: Option<B256>)
        ensures
            r == self@.parent_beacon_block_root,
    {
        self.inner.parent_beacon_block_root
    }

    pub fn suggested_fee_recipient(&self) -> (r: Address)
        ensures
            r == self@.suggested_fee_recipient,
    {
        self.inner.suggested_fee_recipient
    }

    pub fn prev_randao(&self) -> (r: B256)
        ensures
            r == self@.prev_randao,
    {
        self.inner.prev_randao
    }

    pub fn withdrawals(&self) -> (r: &Vec<Withdrawal>)
        ensures
            *r == self@.withdrawals,
    {
        &self.inner.withdrawals
    }
}

/// What `validate_payload_attributes` says of a timestamp that is not after
/// the parent's.
pub open spec fn timestamp_message(timestamp: u64, parent_timestamp: u64) -> Seq<char> {
    "timestamp "@ + decimal(timestamp as nat) + " must be greater than parent "@ + decimal(
        parent_timestamp as nat,
    )
}

/// Whether attributes may start a build on top of a parent with timestamp
/// `parent_timestamp`: their randomness is the network's constant, and
/// their timestamp is after the parent's.
pub open spec fn attributes_valid_on(
    parent_timestamp: u64,
    attrs: EthPayloadBuilderAttributes,
) -> bool {
    attrs.prev_randao@ == LOAD_PREVRANDAO@ && attrs.timestamp > parent_timestamp
}

/// For attributes with the network's randomness, which is every set that
/// `try_new` made, validation before a build fails if and only if the
/// timestamp is not after the parent's.
pub proof fn lemma_checked_attributes_fail_on_timestamp_alone(
    parent_timestamp: u64,
    attrs: EthPayloadBuilderAttributes,
)
    requires
        attrs.prev_randao@ == LOAD_PREVRANDAO@,
    ensures
        !attributes_valid_on(parent_timestamp, attrs) <==> attrs.timestamp <= parent_timestamp,
{
}

/// Validation of attributes can be repeated: where one run of
/// `validate_payload_attributes` passed, any other run on the same
/// attributes and parent passes.
pub proof fn lemma_attribute_validation_repeats(
    parent_timestamp: u64,
    attrs: EthPayloadBuilderAttributes,
    first: Result<(), LoadPayloadAttributesError>,
    second: Result<(), LoadPayloadAttributesError>,
)
    requires
        first is Ok <==> attributes_valid_on(parent_timestamp, attrs),
        second is Ok <==> attributes_valid_on(parent_timestamp, attrs),
        first is Ok,
    ensures
        second is Ok,
{
}

/// Validate Load payload attributes against parent header fields: the
/// randomness is the network's constant, and the timestamp is after the
/// parent's.
pub fn validate_payload_attributes(
    parent_timestamp: u64,
    attrs: &LoadPayloadBuilderAttributes,
) -> (r: Result<(), LoadPayloadAttributesError>)
    ensures
        r is Ok <==> attributes_valid_on(parent_timestamp, attrs@),
        attrs@.prev_randao@ != LOAD_PREVRANDAO@ ==> (r matches Err(
            LoadPayloadAttributesError::InvalidPrevRandao(message),
        ) && message@ == prev_randao_message()),
        attrs@.prev_randao@ == LOAD_PREVRANDAO@ && attrs@.timestamp <= parent_timestamp ==> (
        r matches Err(LoadPayloadAttributesError::InvalidTimestamp(message)) && message@
            == timestamp_message(attrs@.timestamp, parent_timestamp)),
{
    match validate_prev_randao(attrs.prev_randao()) {
        Ok(()) => {},
        Err(message) => {
            return Err(LoadPayloadAttributesError::InvalidPrevRandao(message));
        },
    }
    if attrs.timestamp() <= parent_timestamp {
        let mut message = String::from_str("timestamp ");
        message.append(decimal_string(attrs.timestamp()).as_str());
        message.append(" must be greater than parent ");
        message.append(decimal_string(parent_timestamp).as_str());
        return Err(LoadPayloadAttributesError::InvalidTimestamp(message));
    }
    Ok(())
}

/// Builds payload attributes for local block production.
#[derive(Clone, Debug)]
pub struct LoadLocalPayloadAttributesBuilder(pub LoadChainSpec);

impl LoadLocalPayloadAttributesBuilder {
    /// The attributes of a local block at `timestamp`: the network's
    /// constant randomness, no fee recipient, an empty list of withdrawals
    /// from Shanghai on, and from Cancun on the root `beacon_root`, which
    /// the caller draws at random.
    pub fn build(&self, timestamp: u64, beacon_root: B256) -> (r: LoadPayloadAttributes)
        ensures
            r.inner.timestamp == timestamp,
            r.inner.prev_randao@ == LOAD_PREVRANDAO@,
            forall|i: int| 0 <= i < 20 ==> r.inner.suggested_fee_recipient@[i] == 0u8,
            r.inner.withdrawals is Some <==> self.0.shanghai_active(timestamp),
            r.inner.withdrawals matches Some(list) ==> list@.len() == 0,
            r.inner.parent_beacon_block_root == (if self.0.cancun_active(timestamp) {
                Some(beacon_root)
            } else {
                None
            }),
    {
        LoadPayloadAttributes {
            inner: PayloadAttributes {
                timestamp,
                prev_randao: LOAD_PREVRANDAO,
                suggested_fee_recipient: crate::primitives::zero_address(),
                withdrawals: if self.0.is_shanghai_active_at_timestamp(timestamp) {
                    Some(Vec::new())
                } else {
                    None
                },
                parent_beacon_block_root: if self.0.is_cancun_active_at_timestamp(timestamp) {
                    Some(beacon_root)
                } else {
                    None
                },
            },
        }
    }
}

/// The identifier of a build job.
#[derive(Clone, Copy, Debug, PartialEq, Eq)]
pub struct PayloadId(pub [u8; 8]);

impl Default for PayloadId {
    fn default() -> (r: PayloadId)
        ensures
            forall|i: int| 0 <= i < 8 ==> r.0@[i] == 0u8,
    {
        PayloadId([0u8; 8])
    }
}

/// A list of post-merge requests, each one byte of type and its data.
pub type Requests = Vec<Vec<u8>>;

/// A blob: the data of one data-availability item.
pub type Blob = Vec<u8>;

/// A commitment to a blob, or a proof for one.
pub type Bytes48 = [u8; 48];

/// The sidecar of a blob transaction in the older scheme: its blobs, and
/// for each a commitment and a proof.
#[derive(Clone, Debug, Default, PartialEq, Eq)]
pub struct BlobTransactionSidecar {
    pub blobs: Vec<Blob>,
    pub commitments: Vec<Bytes48>,
    pub proofs: Vec<Bytes48>,
}

/// The sidecar of a blob transaction in the newer scheme: its blobs, a
/// commitment for each, and the proofs of their cells.
#[derive(Clone, Debug, Default, PartialEq, Eq)]
pub struct BlobTransactionSidecarEip7594 {
    pub blobs: Vec<Blob>,
    pub commitments: Vec<Bytes48>,
    pub cell_proofs: Vec<Bytes48>,
}

/// The blobs that the sidecars of the older scheme hold in all.
pub open spec fn blobs_in(sidecars: Seq<BlobTransactionSidecar>) -> nat
    decreases sidecars.len(),
{
    if sidecars.len() == 0 {
        0
    } else {
        blobs_in(sidecars.drop_last()) + sidecars.last().blobs@.len()
    }
}

/// The blobs that the sidecars of the newer scheme hold in all.
pub open spec fn blobs_in_eip7594(sidecars: Seq<BlobTransactionSidecarEip7594>) -> nat
    decreases sidecars.len(),
{
    if sidecars.len() == 0 {
        0
    } else {
        blobs_in_eip7594(sidecars.drop_last()) + sidecars.last().blobs@.len()
    }
}

/// The blobs of a list with one more sidecar.
pub proof fn lemma_blobs_in_push(sidecars: Seq<BlobTransactionSidecar>, sidecar: BlobTransactionSidecar)
    ensures
        blobs_in(sidecars.push(sidecar)) == blobs_in(sidecars) + sidecar.blobs@.len(),
{
    assert(sidecars.push(sidecar).drop_last() =~= sidecars);
    assert(sidecars.push(sidecar).last() == sidecar);
}

/// The blobs of a list of the newer scheme with one more sidecar.
pub proof fn lemma_blobs_in_eip7594_push(
    sidecars: Seq<BlobTransactionSidecarEip7594>,
    sidecar: BlobTransactionSidecarEip7594,
)
    ensures
        blobs_in_eip7594(sidecars.push(sidecar)) == blobs_in_eip7594(sidecars)
            + sidecar.blobs@.len(),
{
    assert(sidecars.push(sidecar).drop_last() =~= sidecars);
    assert(sidecars.push(sidecar).last() == sidecar);
}

/// The first sidecars of a list hold no more blobs than the whole list.
pub proof fn lemma_blobs_in_prefix(sidecars: Seq<BlobTransactionSidecar>, n: int)
    requires
        0 <= n <= sidecars.len(),
    ensures
        blobs_in(sidecars.take(n)) <= blobs_in(sidecars),
    decreases sidecars.len(),
{
    if n == sidecars.len() {
        assert(sidecars.take(n) =~= sidecars);
    } else {
        assert(sidecars.drop_last().take(n) =~= sidecars.take(n));
        lemma_blobs_in_prefix(sidecars.drop_last(), n);
    }
}

/// The sidecars of the blob transactions of a block: none, or all of one
/// scheme.
#[derive(Clone, Debug, PartialEq, Eq)]
pub enum BlobSidecars {
    /// No sidecars.
    Empty,
    /// Sidecars of the older scheme, one per blob transaction.
    Eip4844(Vec<BlobTransactionSidecar>),
    /// Sidecars of the newer scheme, one per blob transaction.
    Eip7594(Vec<BlobTransactionSidecarEip7594>),
}

/// The sidecar of one blob transaction, of either scheme.
#[derive(Clone, Debug, PartialEq, Eq)]
pub enum BlobTransactionSidecarVariant {
    /// A sidecar of the older scheme.
    Eip4844(BlobTransactionSidecar),
    /// A sidecar of the newer scheme.
    Eip7594(BlobTransactionSidecarEip7594),
}

impl BlobTransactionSidecarVariant {
    /// The number of blobs that the sidecar holds.
    pub open spec fn blobs(self) -> nat {
        match self {
            BlobTransactionSidecarVariant::Eip4844(sidecar) => sidecar.blobs@.len(),
            BlobTransactionSidecarVariant::Eip7594(sidecar) => sidecar.blobs@.len(),
        }
    }

    /// The number of blobs that the sidecar holds.
    pub fn blob_count(&self) -> (r: usize)
        ensures
            r == self.blobs(),
    {
        match self {
            BlobTransactionSidecarVariant::Eip4844(sidecar) => sidecar.blobs.len(),
            BlobTransactionSidecarVariant::Eip7594(sidecar) => sidecar.blobs.len(),
        }
    }

    pub fn is_eip4844(&self) -> (r: bool)
        ensures
            r == (self is Eip4844),
    {
        match self {
            BlobTransactionSidecarVariant::Eip4844(_) => true,
            BlobTransactionSidecarVariant::Eip7594(_) => false,
        }
    }

    pub fn is_eip7594(&self) -> (r: bool)
        ensures
            r == (self is Eip7594),
    {
        match self {
            BlobTransactionSidecarVariant::Eip4844(_) => false,
            BlobTransactionSidecarVariant::Eip7594(_) => true,
        }
    }
}

/// What a collection of sidecars holds.
pub enum BlobSidecarsView {
    /// No sidecars.
    Empty,
    /// Sidecars of the older scheme.
    Eip4844(Seq<BlobTransactionSidecar>),
    /// Sidecars of the newer scheme.
    Eip7594(Seq<BlobTransactionSidecarEip7594>),
}

impl BlobSidecarsView {
    /// The blobs that the sidecars hold in all.
    pub open spec fn blobs(self) -> nat {
        match self {
            BlobSidecarsView::Empty => 0,
            BlobSidecarsView::Eip4844(sidecars) => blobs_in(sidecars),
            BlobSidecarsView::Eip7594(sidecars) => blobs_in_eip7594(sidecars),
        }
    }

    /// The number of sidecars.
    pub open spec fn count(self) -> nat {
        match self {
            BlobSidecarsView::Empty => 0,
            BlobSidecarsView::Eip4844(sidecars) => sidecars.len(),
            BlobSidecarsView::Eip7594(sidecars) => sidecars.len(),
        }
    }

    /// The collection with `sidecar` added: an empty collection takes the
    /// scheme of its first sidecar, and a sidecar of the other scheme is
    /// left out.
    pub open spec fn with_sidecar(self, sidecar: BlobTransactionSidecarVariant) -> Self {
        match (self, sidecar) {
            (BlobSidecarsView::Empty, BlobTransactionSidecarVariant::Eip4844(s)) => {
                BlobSidecarsView::Eip4844(seq![s])
            },
            (BlobSidecarsView::Empty, BlobTransactionSidecarVariant::Eip7594(s)) => {
                BlobSidecarsView::Eip7594(seq![s])
            },
            (BlobSidecarsView::Eip4844(sidecars), BlobTransactionSidecarVariant::Eip4844(s)) => {
                BlobSidecarsView::Eip4844(sidecars.push(s))
            },
            (BlobSidecarsView::Eip7594(sidecars), BlobTransactionSidecarVariant::Eip7594(s)) => {
                BlobSidecarsView::Eip7594(sidecars.push(s))
            },
            (other, _) => other,
        }
    }
}

impl View for BlobSidecars {
    type V = BlobSidecarsView;

    open spec fn view(&self) -> BlobSidecarsView {
        match self {
            BlobSidecars::Empty => BlobSidecarsView::Empty,
            BlobSidecars::Eip4844(sidecars) => BlobSidecarsView::Eip4844(sidecars@),
            BlobSidecars::Eip7594(sidecars) => BlobSidecarsView::Eip7594(sidecars@),
        }
    }
}

impl BlobSidecars {
    /// The number of sidecars.
    pub fn len(&self) -> (r: usize)
        ensures
            r == self@.count(),
    {
        match self {
            BlobSidecars::Empty => 0,
            BlobSidecars::Eip4844(sidecars) => sidecars.len(),
            BlobSidecars::Eip7594(sidecars) => sidecars.len(),
        }
    }

    /// Adds the sidecar of one more transaction.
    pub fn push_sidecar_variant(&mut self, sidecar: BlobTransactionSidecarVariant)
        ensures
            final(self)@ == old(self)@.with_sidecar(sidecar),
    {
        match self {
            BlobSidecars::Empty => {
                match sidecar {
                    BlobTransactionSidecarVariant::Eip4844(s) => {
                        let mut sidecars = Vec::new();
                        sidecars.push(s);
                        assert(sidecars@ =~= seq![s]);
                        *self = BlobSidecars::Eip4844(sidecars);
                    },
                    BlobTransactionSidecarVariant::Eip7594(s) => {
                        let mut sidecars = Vec::new();
                        sidecars.push(s);
                        assert(sidecars@ =~= seq![s]);
                        *self = BlobSidecars::Eip7594(sidecars);
                    },
                }
            },
            BlobSidecars::Eip4844(sidecars) => {
                match sidecar {
                    BlobTransactionSidecarVariant::Eip4844(s) => {
                        sidecars.push(s);
                    },
                    BlobTransactionSidecarVariant::Eip7594(_) => {},
                }
            },
            BlobSidecars::Eip7594(sidecars) => {
                match sidecar {
                    BlobTransactionSidecarVariant::Eip4844(_) => {},
                    BlobTransactionSidecarVariant::Eip7594(s) => {
                        sidecars.push(s);
                    },
                }
            },
        }
    }
}

/// Why a built payload cannot be put into an envelope.
#[derive(Clone, Copy, Debug, PartialEq, Eq, Structural)]
pub enum BuiltPayloadConversionError {
    /// The payload holds sidecars of the older scheme where none may be,
    /// or more blobs in them than the budget, or more of them than that.
    UnexpectedEip4844Sidecars,
    /// The payload holds sidecars of the newer scheme where none may be.
    UnexpectedEip7594Sidecars,
}

/// A built payload: the sealed block `B`, what it earns, the requests it
/// makes and the sidecars of its blob transactions.
#[derive(Clone, Debug)]
pub struct EthBuiltPayload<B> {
    /// Identifier of the build job.
    pub id: PayloadId,
    /// The sealed block.
    pub block: B,
    /// What the block's producer earns.
    pub fees: U256,
    /// Sidecars of the block's blob transactions.
    pub sidecars: BlobSidecars,
    /// Requests of the block; set from Prague on.
    pub requests: Option<Requests>,
}

impl<B> EthBuiltPayload<B> {
    /// A payload without sidecars.
    pub fn new(id: PayloadId, block: B, fees: U256, requests: Option<Requests>) -> (r: Self)
        ensures
            r.id == id,
            r.block == block,
            r.fees == fees,
            r.requests == requests,
            r.sidecars is Empty,
    {
        Self { id, block, fees, sidecars: BlobSidecars::Empty, requests }
    }

    /// The payload with `sidecars` in place of its own.
    pub fn with_sidecars(self, sidecars: BlobSidecars) -> (r: Self)
        ensures
            r.id == self.id,
            r.block == self.block,
            r.fees == self.fees,
            r.requests == self.requests,
            r.sidecars == sidecars,
    {
        Self { id: self.id, block: self.block, fees: self.fees, sidecars, requests: self.requests }
    }
}

/// Load-specific built payload wrapper.
#[derive(Clone, Debug)]
pub struct LoadBuiltPayload<B> {
    pub inner: EthBuiltPayload<B>,
}

/// Why sidecars may not leave in an envelope that carries the older scheme
/// and at most `max_blobs` blobs: the newer scheme is refused, and so are
/// sidecars that hold more than `max_blobs` blobs in all, and more than
/// `max_blobs` sidecars whatever they hold.
pub open spec fn sidecar_guard_error(
    sidecars: BlobSidecarsView,
    max_blobs: usize,
) -> Option<BuiltPayloadConversionError> {
    match sidecars {
        BlobSidecarsView::Eip7594(_) => Some(BuiltPayloadConversionError::UnexpectedEip7594Sidecars),
        BlobSidecarsView::Eip4844(list) => if list.len() > max_blobs || blobs_in(list)
            > max_blobs {
            Some(BuiltPayloadConversionError::UnexpectedEip4844Sidecars)
        } else {
            None
        },
        BlobSidecarsView::Empty => None,
    }
}

/// The guard on sidecars can be repeated, and what it let out passes it
/// again: where one run of `guard_sidecars` passed, any other run on the
/// same sidecars passes, and so does a run on the sidecars that the payload
/// left with.
pub proof fn lemma_sidecar_guard_repeats(
    sidecars: BlobSidecarsView,
    max_blobs: usize,
    first: Result<(), BuiltPayloadConversionError>,
    second: Result<(), BuiltPayloadConversionError>,
)
    requires
        first is Ok <==> sidecar_guard_error(sidecars, max_blobs) is None,
        second is Ok <==> sidecar_guard_error(sidecars, max_blobs) is None,
        first is Ok,
    ensures
        second is Ok,
        sidecar_guard_error(
            BlobSidecarsView::Eip4844(eip4844_sidecars(sidecars)),
            max_blobs,
        ) is None,
{
}

/// The third version of the envelope: the block, its value and the
/// sidecars that make its blobs bundle.
#[derive(Clone, Debug)]
pub struct ExecutionPayloadEnvelopeV3<B> {
    pub execution_payload: B,
    pub block_value: U256,
    pub blobs_bundle: Vec<BlobTransactionSidecar>,
    pub should_override_builder: bool,
}

/// The fourth version of the envelope: the third and the block's requests.
#[derive(Clone, Debug)]
pub struct ExecutionPayloadEnvelopeV4<B> {
    pub envelope_inner: ExecutionPayloadEnvelopeV3<B>,
    pub execution_requests: Requests,
}

/// The fifth version of the envelope: as the fourth, with sidecars of the
/// newer scheme.
#[derive(Clone, Debug)]
pub struct ExecutionPayloadEnvelopeV5<B> {
    pub execution_payload: B,
    pub block_value: U256,
    pub blobs_bundle: Vec<BlobTransactionSidecarEip7594>,
    pub should_override_builder: bool,
    pub execution_requests: Requests,
}

/// The second version of the envelope: the block and its value.
#[derive(Clone, Debug)]
pub struct ExecutionPayloadEnvelopeV2<B> {
    pub execution_payload: B,
    pub block_value: U256,
}

/// The requests of a payload, or none.
pub open spec fn requests_or_empty(requests: Option<Requests>) -> Seq<Vec<u8>> {
    match requests {
        Some(list) => list@,
        None => Seq::empty(),
    }
}

/// The sidecars of the older scheme in a collection.
pub open spec fn eip4844_sidecars(sidecars: BlobSidecarsView) -> Seq<BlobTransactionSidecar> {
    match sidecars {
        BlobSidecarsView::Eip4844(list) => list,
        _ => Seq::empty(),
    }
}

impl<B> LoadBuiltPayload<B> {
    pub fn new(inner: EthBuiltPayload<B>) -> (r: Self)
        ensures
            r.inner == inner,
    {
        Self { inner }
    }

    /// Checks the sidecars before the payload leaves in an envelope of the
    /// older scheme: they are of that scheme, and neither their blobs in all
    /// nor the sidecars themselves are more than `max_blobs`.
    pub fn guard_sidecars(&self, max_blobs: usize) -> (r: Result<(), BuiltPayloadConversionError>)
        ensures
            r is Ok <==> sidecar_guard_error(self.inner.sidecars@, max_blobs) is None,
            r matches Err(e) ==> sidecar_guard_error(self.inner.sidecars@, max_blobs) == Some(e),
    {
        match &self.inner.sidecars {
            BlobSidecars::Eip7594(_) => Err(BuiltPayloadConversionError::UnexpectedEip7594Sidecars),
            BlobSidecars::Eip4844(sidecars) => {
                if sidecars.len() > max_blobs {
                    return Err(BuiltPayloadConversionError::UnexpectedEip4844Sidecars);
                }
                let mut total: usize = 0;
                let mut i: usize = 0;
                while i < sidecars.len()
                    invariant
                        i <= sidecars@.len(),
                        sidecars@.len() <= max_blobs,
                        self.inner.sidecars@ == BlobSidecarsView::Eip4844(sidecars@),
                        total == blobs_in(sidecars@.take(i as int)),
                        total <= max_blobs,
                    decreases sidecars@.len() - i,
                {
                    let held: usize = sidecars[i].blobs.len();
                    proof {
                        assert(sidecars@.take(i + 1).drop_last() =~= sidecars@.take(i as int));
                        assert(sidecars@.take(i + 1).last() == sidecars@[i as int]);
                        lemma_blobs_in_prefix(sidecars@, i + 1);
                    }
                    if held > max_blobs - total {
                        return Err(BuiltPayloadConversionError::UnexpectedEip4844Sidecars);
                    }
                    total = total + held;
                    i += 1;
                }
                proof {
                    assert(sidecars@.take(i as int) =~= sidecars@);
                }
                Ok(())
            },
            BlobSidecars::Empty => Ok(()),
        }
    }

    /// The sealed block.
    pub fn block(&self) -> (r: &B)
        ensures
            *r == self.inner.block,
    {
        &self.inner.block
    }

    /// What the block's producer earns.
    pub fn fees(&self) -> (r: U256)
        ensures
            r == self.inner.fees,
    {
        self.inner.fees
    }

    /// The first version of the envelope: the block alone.
    pub fn into_v1(self) -> (r: B)
        ensures
            r == self.inner.block,
    {
        self.inner.block
    }

    /// The second version of the envelope.
    pub fn into_v2(self) -> (r: ExecutionPayloadEnvelopeV2<B>)
        ensures
            r.execution_payload == self.inner.block,
            r.block_value == self.inner.fees,
    {
        ExecutionPayloadEnvelopeV2 {
            execution_payload: self.inner.block,
            block_value: self.inner.fees,
        }
    }

    /// The third version of the envelope. A payload with sidecars of the
    /// newer scheme, with more blobs in its sidecars than the network's
    /// blob budget, or with more sidecars than that, cannot be converted;
    /// nothing is cut off.
    pub fn try_into_v3(self) -> (r: Result<
        ExecutionPayloadEnvelopeV3<B>,
        BuiltPayloadConversionError,
    >)
        ensures
            r is Ok <==> sidecar_guard_error(self.inner.sidecars@, LOAD_MAX_BLOB_COUNT as usize)
                is None,
            r matches Err(e) ==> sidecar_guard_error(
                self.inner.sidecars@,
                LOAD_MAX_BLOB_COUNT as usize,
            ) == Some(e),
            r matches Ok(envelope) ==> {
                &&& envelope.execution_payload == self.inner.block
                &&& envelope.block_value == self.inner.fees
                &&& !envelope.should_override_builder
                &&& envelope.blobs_bundle@ == eip4844_sidecars(self.inner.sidecars@)
            },
    {
        match self.guard_sidecars(LOAD_MAX_BLOB_COUNT as usize) {
            Ok(()) => {},
            Err(e) => {
                return Err(e);
            },
        }
        let EthBuiltPayload { block, fees, sidecars, .. } = self.inner;
        let blobs_bundle = match sidecars {
            BlobSidecars::Empty => Vec::new(),
            BlobSidecars::Eip4844(list) => list,
            BlobSidecars::Eip7594(_) => Vec::new(),
        };
        Ok(
            ExecutionPayloadEnvelopeV3 {
                execution_payload: block,
                block_value: fees,
                should_override_builder: false,
                blobs_bundle,
            },
        )
    }

    /// The fourth version of the envelope: the third, and the payload's
    /// requests or an empty list.
    pub fn try_into_v4(self) -> (r: Result<
        ExecutionPayloadEnvelopeV4<B>,
        BuiltPayloadConversionError,
    >)
        ensures
            r is Ok <==> sidecar_guard_error(self.inner.sidecars@, LOAD_MAX_BLOB_COUNT as usize)
                is None,
            r matches Err(e) ==> sidecar_guard_error(
                self.inner.sidecars@,
                LOAD_MAX_BLOB_COUNT as usize,
            ) == Some(e),
            r matches Ok(envelope) ==> {
                &&& envelope.envelope_inner.execution_payload == self.inner.block
                &&& envelope.envelope_inner.block_value == self.inner.fees
                &&& !envelope.envelope_inner.should_override_builder
                &&& envelope.envelope_inner.blobs_bundle@ == eip4844_sidecars(self.inner.sidecars@)
                &&& envelope.execution_requests@ == requests_or_empty(self.inner.requests)
            },
    {
        match self.guard_sidecars(LOAD_MAX_BLOB_COUNT as usize) {
            Ok(()) => {},
            Err(e) => {
                return Err(e);
            },
        }
        let EthBuiltPayload { block, fees, sidecars, requests, .. } = self.inner;
        let blobs_bundle = match sidecars {
            BlobSidecars::Empty => Vec::new(),
            BlobSidecars::Eip4844(list) => list,
            BlobSidecars::Eip7594(_) => Vec::new(),
        };
        let execution_requests = match requests {
            Some(list) => list,
            None => Vec::new(),
        };
        Ok(
            ExecutionPayloadEnvelopeV4 {
                envelope_inner: ExecutionPayloadEnvelopeV3 {
                    execution_payload: block,
                    block_value: fees,
                    should_override_builder: false,
                    blobs_bundle,
                },
                execution_requests,
            },
        )
    }

    /// The fifth version of the envelope. It carries the newer scheme,
    /// which the network does not hand out: only a payload without
    /// sidecars can be converted.
    pub fn try_into_v5(self) -> (r: Result<
        ExecutionPayloadEnvelopeV5<B>,
        BuiltPayloadConversionError,
    >)
        ensures
            r is Ok <==> self.inner.sidecars@ is Empty,
            r matches Err(e) ==> e == (match self.inner.sidecars@ {
                BlobSidecarsView::Eip7594(_) => BuiltPayloadConversionError::UnexpectedEip7594Sidecars,
                _ => BuiltPayloadConversionError::UnexpectedEip4844Sidecars,
            }),
            r matches Ok(envelope) ==> {
                &&& envelope.execution_payload == self.inner.block
                &&& envelope.block_value == self.inner.fees
                &&& !envelope.should_override_builder
                &&& envelope.blobs_bundle@.len() == 0
                &&& envelope.execution_requests@ == requests_or_empty(self.inner.requests)
            },
    {
        match self.guard_sidecars(LOAD_MAX_BLOB_COUNT as usize) {
            Ok(()) => {},
            Err(e) => {
                return Err(e);
            },
        }
        let EthBuiltPayload { block, fees, sidecars, requests, .. } = self.inner;
        match sidecars {
            BlobSidecars::Empty => {},
            _ => {
                return Err(BuiltPayloadConversionError::UnexpectedEip4844Sidecars);
            },
        }
        let execution_requests = match requests {
            Some(list) => list,
            None => Vec::new(),
        };
        Ok(
            ExecutionPayloadEnvelopeV5 {
                execution_payload: block,
                block_value: fees,
                should_override_builder: false,
                blobs_bundle: Vec::new(),
                execution_requests,
            },
        )
    }
}

/// Convenience constructor for an empty Load payload: the block `block`,
/// no fees, no requests and no sidecars.
pub fn empty_load_payload<B>(id: PayloadId, block: B) -> (r: LoadBuiltPayload<B>)
    ensures
        r.inner.id == id,
        r.inner.block == block,
        r.inner.fees.value() == 0,
        r.inner.requests is None,
        r.inner.sidecars is Empty,
{
    LoadBuiltPayload::new(EthBuiltPayload::new(id, block, U256::zero(), None))
}

/// The first version of an execution payload.
#[derive(Clone, Debug, PartialEq, Eq)]
pub struct ExecutionPayloadV1 {
    pub parent_hash: B256,
    pub fee_recipient: Address,
    pub state_root: B256,
    pub receipts_root: B256,
    pub logs_bloom: [u8; 256],
    pub prev_randao: B256,
    pub block_number: u64,
    pub gas_limit: u64,
    pub gas_used: u64,
    pub timestamp: u64,
    pub extra_data: Vec<u8>,
    pub base_fee_per_gas: U256,
    pub block_hash: B256,
    pub transactions: Vec<Vec<u8>>,
}

/// The second version of an execution payload: the first and withdrawals.
#[derive(Clone, Debug, PartialEq, Eq)]
pub struct ExecutionPayloadV2 {
    pub payload_inner: ExecutionPayloadV1,
    pub withdrawals: Vec<Withdrawal>,
}

/// The third version of an execution payload: the second and blob gas.
#[derive(Clone, Debug, PartialEq, Eq)]
pub struct ExecutionPayloadV3 {
    pub payload_inner: ExecutionPayloadV2,
    pub blob_gas_used: u64,
    pub excess_blob_gas: u64,
}

/// A payload as `engine_newPayloadV2` takes it: withdrawals may be left
/// out.
#[derive(Clone, Debug, PartialEq, Eq)]
pub struct ExecutionPayloadInputV2 {
    pub execution_payload: ExecutionPayloadV1,
    pub withdrawals: Option<Vec<Withdrawal>>,
}

/// An execution payload of any version.
#[derive(Clone, Debug, PartialEq, Eq)]
pub enum ExecutionPayload {
    V1(ExecutionPayloadV1),
    V2(ExecutionPayloadV2),
    V3(ExecutionPayloadV3),
}

impl ExecutionPayload {
    /// The fields that every version has.
    pub open spec fn v1(self) -> ExecutionPayloadV1 {
        match self {
            ExecutionPayload::V1(p) => p,
            ExecutionPayload::V2(p) => p.payload_inner,
            ExecutionPayload::V3(p) => p.payload_inner.payload_inner,
        }
    }

    /// The withdrawals, from the second version on.
    pub open spec fn withdrawals_of(self) -> Option<Vec<Withdrawal>> {
        match self {
            ExecutionPayload::V1(_) => None,
            ExecutionPayload::V2(p) => Some(p.withdrawals),
            ExecutionPayload::V3(p) => Some(p.payload_inner.withdrawals),
        }
    }

    /// The fields that every version has.
    pub fn as_v1(&self) -> (r: &ExecutionPayloadV1)
        ensures
            *r == self.v1(),
    {
        match self {
            ExecutionPayload::V1(p) => p,
            ExecutionPayload::V2(p) => &p.payload_inner,
            ExecutionPayload::V3(p) => &p.payload_inner.payload_inner,
        }
    }

    pub fn prev_randao(&self) -> (r: B256)
        ensures
            r == self.v1().prev_randao,
    {
        self.as_v1().prev_randao
    }

    pub fn timestamp(&self) -> (r: u64)
        ensures
            r == self.v1().timestamp,
    {
        self.as_v1().timestamp
    }

    pub fn parent_hash(&self) -> (r: B256)
        ensures
            r == self.v1().parent_hash,
    {
        self.as_v1().parent_hash
    }

    pub fn block_hash(&self) -> (r: B256)
        ensures
            r == self.v1().block_hash,
    {
        self.as_v1().block_hash
    }

    pub fn block_number(&self) -> (r: u64)
        ensures
            r == self.v1().block_number,
    {
        self.as_v1().block_number
    }

    pub fn withdrawals(&self) -> (r: Option<&Vec<Withdrawal>>)
        ensures
            r is Some <==> self.withdrawals_of() is Some,
            r matches Some(list) ==> *list == self.withdrawals_of()->0,
    {
        match self {
            ExecutionPayload::V1(_) => None,
            ExecutionPayload::V2(p) => Some(&p.withdrawals),
            ExecutionPayload::V3(p) => Some(&p.payload_inner.withdrawals),
        }
    }
}

impl ExecutionPayloadInputV2 {
    /// The payload: of the second version where withdrawals are given,
    /// else of the first.
    pub fn into_payload(self) -> (r: ExecutionPayload)
        ensures
            r == (match self.withdrawals {
                Some(withdrawals) => ExecutionPayload::V2(
                    ExecutionPayloadV2 { payload_inner: self.execution_payload, withdrawals },
                ),
                None => ExecutionPayload::V1(self.execution_payload),
            }),
    {
        match self.withdrawals {
            Some(withdrawals) => ExecutionPayload::V2(
                ExecutionPayloadV2 { payload_inner: self.execution_payload, withdrawals },
            ),
            None => ExecutionPayload::V1(self.execution_payload),
        }
    }
}

/// The requests of a block, or their hash alone.
#[derive(Clone, Debug, PartialEq, Eq)]
pub enum RequestsOrHash {
    Requests(Requests),
    Hash(B256),
}

/// What came with a payload from Cancun on.
#[derive(Clone, Debug, PartialEq, Eq)]
pub struct CancunPayloadFields {
    pub parent_beacon_block_root: B256,
    pub versioned_hashes: Vec<B256>,
}

/// What came with a payload from Prague on.
#[derive(Clone, Debug, PartialEq, Eq)]
pub struct PraguePayloadFields {
    pub requests: RequestsOrHash,
}

impl PraguePayloadFields {
    pub fn new(requests: RequestsOrHash) -> (r: Self)
        ensures
            r.requests == requests,
    {
        Self { requests }
    }
}

/// What came beside an execution payload.
#[derive(Clone, Debug, PartialEq, Eq)]
pub struct ExecutionPayloadSidecar {
    pub cancun: Option<CancunPayloadFields>,
    pub prague: Option<PraguePayloadFields>,
}

impl ExecutionPayloadSidecar {
    /// The versioned hashes of the blobs that the payload declares, where
    /// the Cancun fields came with it.
    pub open spec fn declared_hashes(self) -> Option<Seq<B256>> {
        match self.cancun {
            Some(fields) => Some(fields.versioned_hashes@),
            None => None,
        }
    }

    /// Whether a list of requests came with the payload; their hash alone
    /// does not count.
    pub open spec fn has_requests(self) -> bool {
        self.prague matches Some(fields) && fields.requests is Requests
    }

    /// Nothing beside the payload.
    pub fn none() -> (r: Self)
        ensures
            r.cancun is None,
            r.prague is None,
    {
        Self { cancun: None, prague: None }
    }

    /// The Cancun fields beside the payload.
    pub fn v3(cancun: CancunPayloadFields) -> (r: Self)
        ensures
            r.cancun == Some(cancun),
            r.prague is None,
    {
        Self { cancun: Some(cancun), prague: None }
    }

    /// The Cancun and Prague fields beside the payload.
    pub fn v4(cancun: CancunPayloadFields, prague: PraguePayloadFields) -> (r: Self)
        ensures
            r.cancun == Some(cancun),
            r.prague == Some(prague),
    {
        Self { cancun: Some(cancun), prague: Some(prague) }
    }

    pub fn parent_beacon_block_root(&self) -> (r: Option<B256>)
        ensures
            r == (match self.cancun {
                Some(fields) => Some(fields.parent_beacon_block_root),
                None => None,
            }),
    {
        match &self.cancun {
            Some(fields) => Some(fields.parent_beacon_block_root),
            None => None,
        }
    }

    pub fn versioned_hashes(&self) -> (r: Option<&Vec<B256>>)
        ensures
            r is Some <==> self.cancun is Some,
            r matches Some(hashes) ==> hashes@ == self.declared_hashes()->0,
    {
        match &self.cancun {
            Some(fields) => Some(&fields.versioned_hashes),
            None => None,
        }
    }

    pub fn requests(&self) -> (r: Option<&Requests>)
        ensures
            r is Some <==> self.has_requests(),
            r matches Some(list) ==> self.prague->0.requests == RequestsOrHash::Requests(*list),
    {
        match &self.prague {
            Some(fields) => match &fields.requests {
                RequestsOrHash::Requests(list) => Some(list),
                RequestsOrHash::Hash(_) => None,
            },
            None => None,
        }
    }
}

/// An execution payload and what came beside it.
#[derive(Clone, Debug, PartialEq, Eq)]
pub struct ExecutionData {
    pub payload: ExecutionPayload,
    pub sidecar: ExecutionPayloadSidecar,
}

/// Execution payload wrapper for Load Network.
#[derive(Clone, Debug)]
pub struct LoadExecutionData {
    inner: ExecutionData,
}

impl View for LoadExecutionData {
    type V = ExecutionData;

    closed spec fn view(&self) -> ExecutionData {
        self.inner
    }
}

impl LoadExecutionData {
    pub fn new(payload: ExecutionPayload, sidecar: ExecutionPayloadSidecar) -> (r: Self)
        ensures
            r@ == (ExecutionData { payload, sidecar }),
    {
        Self { inner: ExecutionData { payload, sidecar } }
    }

    /// A payload as `engine_newPayloadV3` takes it.
    pub fn v3(
        payload: ExecutionPayloadV3,
        versioned_hashes: Vec<B256>,
        parent_beacon_block_root: B256,
    ) -> (r: Self)
        ensures
            r@.payload == ExecutionPayload::V3(payload),
            r@.sidecar.cancun == Some(
                CancunPayloadFields { parent_beacon_block_root, versioned_hashes },
            ),
            r@.sidecar.prague is None,
    {
        Self {
            inner: ExecutionData {
                payload: ExecutionPayload::V3(payload),
                sidecar: ExecutionPayloadSidecar::v3(
                    CancunPayloadFields { versioned_hashes, parent_beacon_block_root },
                ),
            },
        }
    }

    /// A payload as `engine_newPayloadV4` takes it.
    pub fn v4(
        payload: ExecutionPayloadV3,
        versioned_hashes: Vec<B256>,
        parent_beacon_block_root: B256,
        execution_requests: RequestsOrHash,
    ) -> (r: Self)
        ensures
            r@.payload == ExecutionPayload::V3(payload),
            r@.sidecar.cancun == Some(
                CancunPayloadFields { parent_beacon_block_root, versioned_hashes },
            ),
            r@.sidecar.prague == Some(PraguePayloadFields { requests: execution_requests }),
    {
        Self {
            inner: ExecutionData {
                payload: ExecutionPayload::V3(payload),
                sidecar: ExecutionPayloadSidecar::v4(
                    CancunPayloadFields { versioned_hashes, parent_beacon_block_root },
                    PraguePayloadFields::new(execution_requests),
                ),
            },
        }
    }

    /// A payload as `engine_newPayloadV1` takes it: nothing beside it.
    pub fn from_v1(payload: ExecutionPayloadV1) -> (r: Self)
        ensures
            r@.payload == ExecutionPayload::V1(payload),
            r@.sidecar.cancun is None,
            r@.sidecar.prague is None,
    {
        Self {
            inner: ExecutionData {
                payload: ExecutionPayload::V1(payload),
                sidecar: ExecutionPayloadSidecar::none(),
            },
        }
    }

    /// A payload as `engine_newPayloadV2` takes it: nothing beside it.
    pub fn from_input_v2(payload: ExecutionPayloadInputV2) -> (r: Self)
        ensures
            r@.payload == (match payload.withdrawals {
                Some(withdrawals) => ExecutionPayload::V2(
                    ExecutionPayloadV2 { payload_inner: payload.execution_payload, withdrawals },
                ),
                None => ExecutionPayload::V1(payload.execution_payload),
            }),
            r@.sidecar.cancun is None,
            r@.sidecar.prague is None,
    {
        let payload = payload.into_payload();
        Self { inner: ExecutionData { payload, sidecar: ExecutionPayloadSidecar::none() } }
    }

    pub fn into_parts(self) -> (r: (ExecutionPayload, ExecutionPayloadSidecar))
        ensures
            r.0 == self@.payload,
            r.1 == self@.sidecar,
    {
        let ExecutionData { payload, sidecar } = self.inner;
        (payload, sidecar)
    }

    pub fn into_execution_data(self) -> (r: ExecutionData)
        ensures
            r == self@,
    {
        self.inner
    }

    pub fn sidecar(&self) -> (r: &ExecutionPayloadSidecar)
        ensures
            *r == self@.sidecar,
    {
        &self.inner.sidecar
    }

    pub fn payload(&self) -> (r: &ExecutionPayload)
        ensures
            *r == self@.payload,
    {
        &self.inner.payload
    }

    pub fn inner(&self) -> (r: &ExecutionData)
        ensures
            *r == self@,
    {
        &self.inner
    }

    pub fn parent_hash(&self) -> (r: B256)
        ensures
            r == self@.payload.v1().parent_hash,
    {
        self.inner.payload.parent_hash()
    }

    pub fn block_hash(&self) -> (r: B256)
        ensures
            r == self@.payload.v1().block_hash,
    {
        self.inner.payload.block_hash()
    }

    pub fn block_number(&self) -> (r: u64)
        ensures
            r == self@.payload.v1().block_number,
    {
        self.inner.payload.block_number()
    }

    pub fn withdrawals(&self) -> (r: Option<&Vec<Withdrawal>>)
        ensures
            r is Some <==> self@.payload.withdrawals_of() is Some,
            r matches Some(list) ==> *list == self@.payload.withdrawals_of()->0,
    {
        self.inner.payload.withdrawals()
    }

    pub fn parent_beacon_block_root(&self) -> (r: Option<B256>)
        ensures
            r == (match self@.sidecar.cancun {
                Some(fields) => Some(fields.parent_beacon_block_root),
                None => None,
            }),
    {
        self.inner.sidecar.parent_beacon_block_root()
    }

    pub fn timestamp(&self) -> (r: u64)
        ensures
            r == self@.payload.v1().timestamp,
    {
        self.inner.payload.timestamp()
    }

    pub fn gas_used(&self) -> (r: u64)
        ensures
            r == self@.payload.v1().gas_used,
    {
        self.inner.payload.as_v1().gas_used
    }
}

/// Load engine types (payload + execution metadata).
#[derive(Clone, Copy, Debug, Default)]
pub struct LoadEngineTypes;

impl LoadEngineTypes {
    /// The execution data of a block, from the payload and the fields that
    /// its encoding gives.
    pub fn block_to_payload(payload: ExecutionPayload, sidecar: ExecutionPayloadSidecar) -> (r:
        LoadExecutionData)
        ensures
            r@ == (ExecutionData { payload, sidecar }),
    {
        LoadExecutionData::new(payload, sidecar)
    }
}

} // verus!
