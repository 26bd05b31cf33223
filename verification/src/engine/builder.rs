//! Block assembly: the decisions of one payload build.
//!
//! A build picks transactions greedily from a source that offers its best
//! one next. The decisions stand here, one function per event; whoever
//! drives the build performs what they ask for (fetching a sidecar, running
//! a transaction, telling the source to drop one) and hands back the result.
//! Each state of a build is a type of its own, so that only the event that
//! the build waits for can be handed in.

use vstd::prelude::*;
use crate::chainspec::{BlobParams, LoadChainSpec, LOAD_EXECUTION_GAS_LIMIT, LOAD_MAX_BLOB_COUNT};
use crate::engine::payload::{
    validate_payload_attributes, BlobSidecars, BlobSidecarsView, BlobTransactionSidecarVariant,
    BlobTransactionSidecar, BlobTransactionSidecarEip7594, EthBuiltPayload, LoadBuiltPayload,
    LoadPayloadAttributesError, LoadPayloadBuilderAttributes, PayloadId, Requests,
    lemma_blobs_in_eip7594_push, lemma_blobs_in_push, sidecar_guard_error,
};
use crate::primitives::{pow2_128, pow2_64, U256};
use crate::transaction::SignedTransaction;
use crate::LOAD_PREVRANDAO;

verus! {

/// Largest encoding of a block, in bytes, once Osaka is active.
pub const MAX_RLP_BLOCK_SIZE: usize = 8_388_608;

/// Bytes that the size estimate of a block sets aside for what is not a
/// transaction or a withdrawal.
pub const BLOCK_SIZE_ALLOWANCE: usize = 1024;

/// The blob cap of a block, given the parameters that the fork schedule
/// puts in force: their maximum, or the network's where there are none,
/// and never more than the network's.
pub open spec fn load_blob_cap(params: Option<BlobParams>) -> u64 {
    match params {
        Some(p) => if p.max_blob_count <= LOAD_MAX_BLOB_COUNT {
            p.max_blob_count
        } else {
            LOAD_MAX_BLOB_COUNT
        },
        None => LOAD_MAX_BLOB_COUNT,
    }
}

/// The blob cap of a block at `timestamp`: the smaller of the cap that the
/// fork schedule allows and the network's own.
pub fn compute_load_blob_cap(chain_spec: &LoadChainSpec, timestamp: u64) -> (r: u64)
    ensures
        r == load_blob_cap(chain_spec.blob_params_at(timestamp)),
        r <= LOAD_MAX_BLOB_COUNT,
        chain_spec.blob_params_at(timestamp) matches Some(p) ==> r <= p.max_blob_count,
{
    let scheduled: u64 = match chain_spec.blob_params_at_timestamp(timestamp) {
        Some(params) => params.max_blob_count,
        None => LOAD_MAX_BLOB_COUNT,
    };
    if scheduled <= LOAD_MAX_BLOB_COUNT {
        scheduled
    } else {
        LOAD_MAX_BLOB_COUNT
    }
}

/// Why a blob transaction is not taken.
#[derive(Clone, Copy, Debug, PartialEq, Eq, Structural)]
pub enum Eip4844PoolTransactionError {
    /// The source has no sidecar for the transaction.
    MissingEip4844BlobSidecar,
    /// The transaction is a blob transaction and names no blob.
    NoEip4844Blobs,
    /// The sidecar holds `have` blobs and the transaction names `expected`.
    InvalidEip4844Blob { have: usize, expected: usize },
    /// With the transaction the block would carry `have` blobs, and only
    /// `permitted` are allowed.
    TooManyEip4844Blobs { have: u64, permitted: u64 },
    /// The sidecar is of the older scheme and Osaka is active.
    UnexpectedEip4844SidecarAfterOsaka,
    /// The sidecar is of the newer scheme and Osaka is not active.
    UnexpectedEip7594SidecarBeforeOsaka,
}

/// Why a transaction breaks a consensus rule.
#[derive(Clone, Copy, Debug, PartialEq, Eq, Structural)]
pub enum InvalidTransactionError {
    /// The transaction cannot be part of this block.
    TxTypeNotSupported,
}

/// Why a transaction is dropped from a build, and with it whatever depends
/// on it.
#[derive(Clone, Copy, Debug, PartialEq, Eq, Structural)]
pub enum InvalidPoolTransactionError {
    /// The transaction's gas limit (first) does not fit in what is left of
    /// the block's (second is the block's gas limit).
    ExceedsGasLimit(u64, u64),
    /// With the transaction the block's encoding would be about `size`
    /// bytes, over the `limit`.
    OversizedData { size: usize, limit: usize },
    /// A rule on blobs.
    Eip4844(Eip4844PoolTransactionError),
    /// A consensus rule.
    Consensus(InvalidTransactionError),
}

/// Why a build is given up.
#[derive(Clone, Copy, Debug, PartialEq, Eq, Structural)]
pub enum BuildAbort {
    /// Running a transaction failed for a reason other than the
    /// transaction.
    Execution,
    /// The executor reported more gas than the transaction may use.
    GasAboveLimit { gas_used: u64, gas_limit: u64 },
    /// A transaction ran although it does not cover the base fee.
    FeeBelowBaseFee,
    /// The sealed block is larger than a block may be.
    BlockTooLarge { rlp_length: usize, max_rlp_length: usize },
}

/// What the build keeps of a transaction it has taken.
#[derive(Clone, Copy, Debug, PartialEq, Eq, Structural)]
pub struct IncludedTransaction {
    /// Gas that the transaction used.
    pub gas_used: u64,
    /// Blobs that the transaction carries.
    pub blob_count: u64,
    /// What the producer earns per unit of gas.
    pub tip_per_gas: u128,
    /// Length of the encoded transaction.
    pub encoded_length: usize,
}

/// Gas used by all of `txs`.
pub open spec fn total_gas(txs: Seq<IncludedTransaction>) -> nat
    decreases txs.len(),
{
    if txs.len() == 0 {
        0
    } else {
        total_gas(txs.drop_last()) + txs.last().gas_used as nat
    }
}

/// Blobs carried by all of `txs`.
pub open spec fn total_blobs(txs: Seq<IncludedTransaction>) -> nat
    decreases txs.len(),
{
    if txs.len() == 0 {
        0
    } else {
        total_blobs(txs.drop_last()) + txs.last().blob_count as nat
    }
}

/// What the producer earns from all of `txs`: for each the tip per unit of
/// gas times the gas used.
pub open spec fn total_fees(txs: Seq<IncludedTransaction>) -> nat
    decreases txs.len(),
{
    if txs.len() == 0 {
        0
    } else {
        total_fees(txs.drop_last()) + (txs.last().tip_per_gas as nat) * (txs.last().gas_used as nat)
    }
}

/// Length of the encodings of all of `txs`.
pub open spec fn total_length(txs: Seq<IncludedTransaction>) -> nat
    decreases txs.len(),
{
    if txs.len() == 0 {
        0
    } else {
        total_length(txs.drop_last()) + txs.last().encoded_length as nat
    }
}

/// `n`, or `usize::MAX` where `n` is larger.
pub open spec fn clamp_usize(n: nat) -> usize {
    if n <= usize::MAX {
        n as usize
    } else {
        usize::MAX
    }
}

/// `n`, or `u64::MAX` where `n` is larger.
pub open spec fn clamp_u64(n: nat) -> u64 {
    if n <= u64::MAX {
        n as u64
    } else {
        u64::MAX
    }
}

/// The totals of a sequence with one more transaction.
pub proof fn lemma_totals_push(txs: Seq<IncludedTransaction>, tx: IncludedTransaction)
    ensures
        total_gas(txs.push(tx)) == total_gas(txs) + tx.gas_used,
        total_blobs(txs.push(tx)) == total_blobs(txs) + tx.blob_count,
        total_fees(txs.push(tx)) == total_fees(txs) + (tx.tip_per_gas as nat) * (
        tx.gas_used as nat),
        total_length(txs.push(tx)) == total_length(txs) + tx.encoded_length,
{
    assert(txs.push(tx).drop_last() =~= txs);
    assert(txs.push(tx).last() == tx);
}

/// The fees of a block are below 2^128 per unit of gas used.
pub proof fn lemma_fees_bounded_by_gas(txs: Seq<IncludedTransaction>)
    ensures
        total_fees(txs) <= total_gas(txs) * pow2_128(),
    decreases txs.len(),
{
    if txs.len() > 0 {
        lemma_fees_bounded_by_gas(txs.drop_last());
        let tip = txs.last().tip_per_gas as nat;
        let gas = txs.last().gas_used as nat;
        let rest = total_gas(txs.drop_last());
        assert(tip * gas <= pow2_128() * gas) by (nonlinear_arith)
            requires
                tip <= pow2_128(),
        ;
        assert((rest + gas) * pow2_128() == rest * pow2_128() + pow2_128() * gas)
            by (nonlinear_arith);
    }
}

/// What stays the same during a build.
#[derive(Clone, Copy, Debug, PartialEq, Eq, Structural)]
pub struct BuildEnvironment {
    /// Gas limit of the block.
    pub block_gas_limit: u64,
    /// Base fee of the block.
    pub base_fee: u64,
    /// Most blobs the block may carry.
    pub max_blob_count: u64,
    /// Whether Osaka is active at the block's timestamp.
    pub is_osaka: bool,
    /// Whether Prague is active at the block's timestamp.
    pub is_prague: bool,
    /// Length of the encoded withdrawals of the block.
    pub withdrawals_length: usize,
}

/// A build as contracts see it: what stays the same, the transactions
/// taken so far in their order, and their sidecars.
pub struct AssemblyView {
    pub env: BuildEnvironment,
    pub included: Seq<IncludedTransaction>,
    pub sidecars: BlobSidecarsView,
}

impl AssemblyView {
    /// The size that the block's encoding is estimated to have with `tx`.
    pub open spec fn estimated_size_with(self, tx: SignedTransaction) -> nat {
        (clamp_usize(total_length(self.included)) + tx.encoded_length
            + self.env.withdrawals_length + BLOCK_SIZE_ALLOWANCE) as nat
    }

    /// Whether the gas limit of `tx` fits in what is left of the block's.
    pub open spec fn gas_fits(self, tx: SignedTransaction) -> bool {
        total_gas(self.included) + tx.gas_limit <= self.env.block_gas_limit
    }

    /// Whether the block's encoding may be too large with `tx`; the rule
    /// holds from Osaka on.
    pub open spec fn oversized_with(self, tx: SignedTransaction) -> bool {
        self.env.is_osaka && self.estimated_size_with(tx) > MAX_RLP_BLOCK_SIZE
    }

    /// Whether the blobs of `tx` fit in what is left of the block's cap.
    pub open spec fn blobs_fit(self, tx: SignedTransaction) -> bool {
        total_blobs(self.included) + tx.blobs() <= self.env.max_blob_count
    }

    /// Whether a sidecar of this scheme may go into the block.
    pub open spec fn scheme_fits(self, sidecar: BlobTransactionSidecarVariant) -> bool {
        if self.env.is_osaka {
            sidecar is Eip7594
        } else {
            sidecar is Eip4844
        }
    }

    /// The build after `tx` has used `gas_used` gas, with its `sidecar`.
    pub open spec fn with_transaction(
        self,
        tx: SignedTransaction,
        gas_used: u64,
        sidecar: Option<BlobTransactionSidecarVariant>,
    ) -> Self {
        AssemblyView {
            env: self.env,
            included: self.included.push(
                IncludedTransaction {
                    gas_used,
                    blob_count: tx.blobs() as u64,
                    tip_per_gas: tx.tip_at(self.env.base_fee)->0,
                    encoded_length: tx.encoded_length,
                },
            ),
            sidecars: match sidecar {
                Some(s) => self.sidecars.with_sidecar(s),
                None => self.sidecars,
            },
        }
    }
}

/// What is decided of a transaction that the source offers.
pub enum CandidateVerdict {
    /// The build was cancelled: it ends, and nothing is handed out.
    Cancelled,
    /// The transaction is not taken; the source drops it and what depends
    /// on it.
    Skip(InvalidPoolTransactionError),
    /// The transaction carries blobs that fit: its sidecar is needed.
    FetchSidecar,
    /// The transaction is to be run.
    Execute,
}

/// The decision on a transaction that the source offers, in the order of
/// the rules: cancellation, gas, size of the encoding, and for a blob
/// transaction that it names a blob and that its blobs fit under the cap.
pub open spec fn candidate_verdict(
    build: AssemblyView,
    tx: SignedTransaction,
    cancelled: bool,
) -> CandidateVerdict {
    if cancelled {
        CandidateVerdict::Cancelled
    } else if !build.gas_fits(tx) {
        CandidateVerdict::Skip(
            InvalidPoolTransactionError::ExceedsGasLimit(tx.gas_limit, build.env.block_gas_limit),
        )
    } else if build.oversized_with(tx) {
        CandidateVerdict::Skip(
            InvalidPoolTransactionError::OversizedData {
                size: clamp_usize(build.estimated_size_with(tx)),
                limit: MAX_RLP_BLOCK_SIZE,
            },
        )
    } else if tx.is_blob_transaction() {
        if tx.blobs() == 0 {
            CandidateVerdict::Skip(
                InvalidPoolTransactionError::Eip4844(Eip4844PoolTransactionError::NoEip4844Blobs),
            )
        } else if !build.blobs_fit(tx) {
            CandidateVerdict::Skip(
                InvalidPoolTransactionError::Eip4844(
                    Eip4844PoolTransactionError::TooManyEip4844Blobs {
                        have: clamp_u64(total_blobs(build.included) + tx.blobs()),
                        permitted: build.env.max_blob_count,
                    },
                ),
            )
        } else {
            CandidateVerdict::FetchSidecar
        }
    } else {
        CandidateVerdict::Execute
    }
}

/// Why a fetched sidecar keeps its transaction out, if it does: there is
/// none, or it is of the scheme that is not in use at the block's
/// timestamp, or it does not hold as many blobs as the transaction names.
pub open spec fn sidecar_error(
    is_osaka: bool,
    tx: SignedTransaction,
    fetched: Option<BlobTransactionSidecarVariant>,
) -> Option<Eip4844PoolTransactionError> {
    match fetched {
        None => Some(Eip4844PoolTransactionError::MissingEip4844BlobSidecar),
        Some(sidecar) => if is_osaka && !(sidecar is Eip7594) {
            Some(Eip4844PoolTransactionError::UnexpectedEip4844SidecarAfterOsaka)
        } else if !is_osaka && !(sidecar is Eip4844) {
            Some(Eip4844PoolTransactionError::UnexpectedEip7594SidecarBeforeOsaka)
        } else if sidecar.blobs() != tx.blobs() {
            Some(
                Eip4844PoolTransactionError::InvalidEip4844Blob {
                    have: sidecar.blobs() as usize,
                    expected: tx.blobs() as usize,
                },
            )
        } else {
            None
        },
    }
}

/// What running a transaction gave.
#[derive(Clone, Copy, Debug, PartialEq, Eq, Structural)]
pub enum ExecutionOutcome {
    /// The transaction ran and used this much gas.
    Success { gas_used: u64 },
    /// The transaction is invalid; `nonce_too_low` tells whether its nonce
    /// has been used already.
    InvalidTransaction { nonce_too_low: bool },
    /// Running it failed for a reason other than the transaction.
    Failed,
}

/// A build that is ready for the next transaction of the source, or to be
/// sealed.
pub struct BlockAssembly {
    env: BuildEnvironment,
    cumulative_gas_used: u64,
    block_blob_count: u64,
    block_transactions_rlp_length: usize,
    total_fees: U256,
    blob_sidecars: BlobSidecars,
    included: Vec<IncludedTransaction>,
}

/// A build that waits for the sidecar of a blob transaction.
pub struct PendingSidecar {
    assembly: BlockAssembly,
    tx: SignedTransaction,
}

/// A build that waits for a transaction to be run.
pub struct PendingExecution {
    assembly: BlockAssembly,
    tx: SignedTransaction,
    sidecar: Option<BlobTransactionSidecarVariant>,
}

/// A build whose block is being sealed.
pub struct PendingSeal {
    assembly: BlockAssembly,
}

/// What to do with the transaction that the source offered.
pub enum Selection {
    /// The build was cancelled; nothing is handed out.
    Cancelled,
    /// Tell the source that the transaction is invalid for the reason
    /// given, and go on with its next.
    Skip { assembly: BlockAssembly, reason: InvalidPoolTransactionError },
    /// Fetch the transaction's sidecar and hand it in.
    FetchSidecar(PendingSidecar),
    /// Run the transaction and hand in the outcome.
    Execute(PendingExecution),
}

/// What to do once a sidecar was looked for.
pub enum SidecarDecision {
    /// Tell the source that the transaction is invalid for the reason
    /// given, and go on with its next.
    Skip { assembly: BlockAssembly, reason: InvalidPoolTransactionError },
    /// Run the transaction and hand in the outcome.
    Execute(PendingExecution),
}

/// What to do once a transaction was run.
pub enum ExecutionDecision {
    /// The transaction is part of the block. Where `skip_blobs` is set the
    /// cap on blobs is reached, and the source is told to offer no more
    /// blob transactions.
    Included { assembly: BlockAssembly, skip_blobs: bool },
    /// The transaction is not part of the block. Where `mark_invalid` is
    /// set the source is told so, and drops what depends on it.
    Skipped { assembly: BlockAssembly, mark_invalid: Option<InvalidPoolTransactionError> },
    /// The build is given up, and nothing is handed out.
    Abort(BuildAbort),
}

/// What to do once the source has no more transactions.
pub enum SealDecision {
    /// The block earns no more than the best one known: it is not sealed.
    Aborted { fees: U256 },
    /// Seal the block and hand it in.
    Finish(PendingSeal),
}

/// How a build ended.
pub enum BuildOutcome<P> {
    /// The block earns more than the best one known.
    Better { payload: P },
    /// The block earns no more than the best one known.
    Aborted { fees: U256 },
    /// The build was cancelled.
    Cancelled,
}

impl<P> BuildOutcome<P> {
    /// The payload of a build that ended with a better block.
    pub fn into_payload(self) -> (r: Option<P>)
        ensures
            r == (match self {
                BuildOutcome::Better { payload } => Some(payload),
                _ => None,
            }),
    {
        match self {
            BuildOutcome::Better { payload } => Some(payload),
            _ => None,
        }
    }
}

/// Whether a block that earns `new_fees` is better than the best one
/// known: it is where none is known, and else only where it earns strictly
/// more.
pub fn is_better_payload(best_fees: Option<&U256>, new_fees: &U256) -> (r: bool)
    ensures
        r == (match best_fees {
            Some(best) => new_fees.value() > best.value(),
            None => true,
        }),
{
    match best_fees {
        Some(best) => best.lt(new_fees),
        None => true,
    }
}

impl View for BlockAssembly {
    type V = AssemblyView;

    closed spec fn view(&self) -> AssemblyView {
        AssemblyView { env: self.env, included: self.included@, sidecars: self.blob_sidecars@ }
    }
}

/// Whether the sidecars collected so far are of the scheme in use.
pub open spec fn sidecars_of_scheme(is_osaka: bool, sidecars: BlobSidecarsView) -> bool {
    if is_osaka {
        !(sidecars is Eip4844)
    } else {
        !(sidecars is Eip7594)
    }
}

impl AssemblyView {
    /// What holds of every build: the blobs taken are within the block's
    /// cap, which is within the network's; the gas used is within the
    /// block's gas limit; the sidecars are of the scheme in use; they hold
    /// the blobs of the transactions taken, each at least one.
    pub open spec fn within_budget(self) -> bool {
        &&& self.env.max_blob_count <= LOAD_MAX_BLOB_COUNT
        &&& total_blobs(self.included) <= self.env.max_blob_count
        &&& total_gas(self.included) <= self.env.block_gas_limit
        &&& sidecars_of_scheme(self.env.is_osaka, self.sidecars)
        &&& self.sidecars.blobs() == total_blobs(self.included)
        &&& self.sidecars.count() <= self.sidecars.blobs()
    }

    /// Whether `sidecar` is what goes into the block with `tx`: none for a
    /// transaction without blobs, and for a blob transaction one of the
    /// scheme in use that holds as many blobs as the transaction names, at
    /// least one.
    pub open spec fn sidecar_belongs(
        self,
        tx: SignedTransaction,
        sidecar: Option<BlobTransactionSidecarVariant>,
    ) -> bool {
        match sidecar {
            Some(s) => tx.is_blob_transaction() && self.scheme_fits(s) && s.blobs() == tx.blobs()
                && tx.blobs() >= 1,
            None => !tx.is_blob_transaction(),
        }
    }
}

/// A build stays within its budget with every transaction it takes:
/// where the transaction's gas limit and blobs fit in what is left, it
/// used no more gas than its limit, and its sidecar is the one that belongs
/// to it, the block with it uses no more gas than the block's gas limit and
/// carries no more blobs than the block's cap, which is at most the
/// network's, and its sidecars hold those blobs.
pub proof fn lemma_budget_is_kept(
    build: AssemblyView,
    tx: SignedTransaction,
    gas_used: u64,
    sidecar: Option<BlobTransactionSidecarVariant>,
)
    requires
        build.within_budget(),
        build.gas_fits(tx),
        build.blobs_fit(tx),
        gas_used <= tx.gas_limit,
        build.sidecar_belongs(tx, sidecar),
    ensures
        build.with_transaction(tx, gas_used, sidecar).within_budget(),
        total_gas(build.with_transaction(tx, gas_used, sidecar).included) == total_gas(
            build.included,
        ) + gas_used,
        total_blobs(build.with_transaction(tx, gas_used, sidecar).included) == total_blobs(
            build.included,
        ) + tx.blobs(),
        total_blobs(build.with_transaction(tx, gas_used, sidecar).included)
            <= LOAD_MAX_BLOB_COUNT,
{
    let record = build.with_transaction(tx, gas_used, sidecar).included.last();
    lemma_totals_push(build.included, record);
    match (build.sidecars, sidecar) {
        (BlobSidecarsView::Eip4844(list), Some(BlobTransactionSidecarVariant::Eip4844(s))) => {
            lemma_blobs_in_push(list, s);
        },
        (BlobSidecarsView::Eip7594(list), Some(BlobTransactionSidecarVariant::Eip7594(s))) => {
            lemma_blobs_in_eip7594_push(list, s);
        },
        (BlobSidecarsView::Empty, Some(BlobTransactionSidecarVariant::Eip4844(s))) => {
            lemma_blobs_in_push(Seq::empty(), s);
            assert(Seq::<BlobTransactionSidecar>::empty().push(s) =~= seq![s]);
        },
        (BlobSidecarsView::Empty, Some(BlobTransactionSidecarVariant::Eip7594(s))) => {
            lemma_blobs_in_eip7594_push(Seq::empty(), s);
            assert(Seq::<BlobTransactionSidecarEip7594>::empty().push(s) =~= seq![s]);
        },
        _ => {},
    }
}

/// The build after `n` more transactions like `tx` were taken, each of
/// which used `gas_used` gas and brought a sidecar like `sidecar`.
pub open spec fn with_transactions(
    build: AssemblyView,
    tx: SignedTransaction,
    gas_used: u64,
    sidecar: Option<BlobTransactionSidecarVariant>,
    n: nat,
) -> AssemblyView
    decreases n,
{
    if n == 0 {
        build
    } else {
        with_transactions(build, tx, gas_used, sidecar, (n - 1) as nat).with_transaction(
            tx,
            gas_used,
            sidecar,
        )
    }
}

/// What `n` transactions of one kind add to a build: `n` times their
/// blobs, and at most `n` times their gas limit.
pub proof fn lemma_totals_after(
    build: AssemblyView,
    tx: SignedTransaction,
    gas_used: u64,
    sidecar: Option<BlobTransactionSidecarVariant>,
    n: nat,
)
    requires
        tx.blobs() <= u64::MAX,
        gas_used <= tx.gas_limit,
    ensures
        with_transactions(build, tx, gas_used, sidecar, n).env == build.env,
        total_blobs(with_transactions(build, tx, gas_used, sidecar, n).included) == total_blobs(
            build.included,
        ) + n * tx.blobs(),
        total_gas(with_transactions(build, tx, gas_used, sidecar, n).included) <= total_gas(
            build.included,
        ) + n * tx.gas_limit,
    decreases n,
{
    if n > 0 {
        let before = with_transactions(build, tx, gas_used, sidecar, (n - 1) as nat);
        lemma_totals_after(build, tx, gas_used, sidecar, (n - 1) as nat);
        let record = before.with_transaction(tx, gas_used, sidecar).included.last();
        lemma_totals_push(before.included, record);
        let blobs = tx.blobs();
        let limit = tx.gas_limit as nat;
        assert((n - 1) * blobs + blobs == n * blobs) by (nonlinear_arith)
            requires
                n > 0,
        ;
        assert((n - 1) * limit + limit == n * limit) by (nonlinear_arith)
            requires
                n > 0,
        ;
    }
}

/// A block with a cap of 1024 blobs takes 32 of 33 transactions of 32
/// blobs each. On a fresh build before Osaka, with room for the gas of
/// all of them, each of the first 32 is let through to its sidecar, the
/// 32nd fills the cap to the last blob, and the 33rd is skipped because
/// the block would carry 1056 blobs where 1024 are permitted. The build
/// stays within its budget throughout.
pub proof fn lemma_full_cap_takes_32_of_33(
    build: AssemblyView,
    tx: SignedTransaction,
    gas_used: u64,
    sidecar: BlobTransactionSidecarVariant,
)
    requires
        build.within_budget(),
        build.included.len() == 0,
        build.env.max_blob_count == LOAD_MAX_BLOB_COUNT,
        !build.env.is_osaka,
        tx.blobs() == 32,
        33 * tx.gas_limit <= build.env.block_gas_limit,
        gas_used <= tx.gas_limit,
        build.sidecar_belongs(tx, Some(sidecar)),
    ensures
        forall|k: nat|
            k < 32 ==> #[trigger] candidate_verdict(
                with_transactions(build, tx, gas_used, Some(sidecar), k),
                tx,
                false,
            ) is FetchSidecar,
        sidecar_error(false, tx, Some(sidecar)) is None,
        total_blobs(with_transactions(build, tx, gas_used, Some(sidecar), 32).included)
            == build.env.max_blob_count,
        candidate_verdict(with_transactions(build, tx, gas_used, Some(sidecar), 32), tx, false)
            == CandidateVerdict::Skip(
            InvalidPoolTransactionError::Eip4844(
                Eip4844PoolTransactionError::TooManyEip4844Blobs { have: 1056, permitted: 1024 },
            ),
        ),
        forall|k: nat|
            k <= 32 ==> (#[trigger] with_transactions(
                build,
                tx,
                gas_used,
                Some(sidecar),
                k,
            )).within_budget(),
{
    assert(total_gas(build.included) == 0 && total_blobs(build.included) == 0);
    assert forall|k: nat| k <= 32 implies {
        &&& (#[trigger] with_transactions(build, tx, gas_used, Some(sidecar), k)).within_budget()
        &&& k < 32 ==> candidate_verdict(
            with_transactions(build, tx, gas_used, Some(sidecar), k),
            tx,
            false,
        ) is FetchSidecar
    } by {
        lemma_within_budget_after(build, tx, gas_used, sidecar, k);
        lemma_totals_after(build, tx, gas_used, Some(sidecar), k);
        let limit = tx.gas_limit as nat;
        assert(k * limit + limit <= 33 * limit) by (nonlinear_arith)
            requires
                k <= 32,
        ;
    }
    lemma_totals_after(build, tx, gas_used, Some(sidecar), 32);
    let limit = tx.gas_limit as nat;
    assert(32 * limit + limit <= 33 * limit) by (nonlinear_arith);
}

/// A fresh build stays within its budget while transactions of 32 blobs
/// are taken up to the cap of 1024.
proof fn lemma_within_budget_after(
    build: AssemblyView,
    tx: SignedTransaction,
    gas_used: u64,
    sidecar: BlobTransactionSidecarVariant,
    k: nat,
)
    requires
        build.within_budget(),
        build.included.len() == 0,
        build.env.max_blob_count == LOAD_MAX_BLOB_COUNT,
        tx.blobs() == 32,
        33 * tx.gas_limit <= build.env.block_gas_limit,
        gas_used <= tx.gas_limit,
        build.sidecar_belongs(tx, Some(sidecar)),
        k <= 32,
    ensures
        with_transactions(build, tx, gas_used, Some(sidecar), k).within_budget(),
    decreases k,
{
    if k > 0 {
        let before = with_transactions(build, tx, gas_used, Some(sidecar), (k - 1) as nat);
        lemma_within_budget_after(build, tx, gas_used, sidecar, (k - 1) as nat);
        lemma_totals_after(build, tx, gas_used, Some(sidecar), (k - 1) as nat);
        assert(total_gas(build.included) == 0 && total_blobs(build.included) == 0);
        let limit = tx.gas_limit as nat;
        assert((k - 1) * limit + limit <= 33 * limit) by (nonlinear_arith)
            requires
                1 <= k <= 32,
        ;
        lemma_budget_is_kept(before, tx, gas_used, Some(sidecar));
    }
}

/// A block that a build put together before Osaka passes the guard on
/// what leaves in an envelope: its sidecars are of the older scheme, and
/// neither they nor their blobs are more than the network's budget.
pub proof fn lemma_built_payload_passes_guard(build: AssemblyView)
    requires
        build.within_budget(),
        !build.env.is_osaka,
    ensures
        sidecar_guard_error(build.sidecars, LOAD_MAX_BLOB_COUNT as usize) is None,
{
}

impl BlockAssembly {
    #[verifier::type_invariant]
    spec fn well_formed(self) -> bool {
        &&& self@.within_budget()
        &&& self.cumulative_gas_used == total_gas(self.included@)
        &&& self.block_blob_count == total_blobs(self.included@)
        &&& self.block_transactions_rlp_length == clamp_usize(total_length(self.included@))
        &&& self.total_fees.value() == total_fees(self.included@)
    }

    /// Begins a build on top of a parent with timestamp
    /// `parent_timestamp`. The attributes are validated first: the build
    /// begins only with the network's constant randomness and a timestamp
    /// after the parent's. The blob cap is the smaller of what the fork
    /// schedule allows at the block's timestamp and the network's own cap.
    pub fn start(
        chain_spec: &LoadChainSpec,
        parent_timestamp: u64,
        attributes: &LoadPayloadBuilderAttributes,
        block_gas_limit: u64,
        base_fee: u64,
        withdrawals_length: usize,
    ) -> (r: Result<Self, LoadPayloadAttributesError>)
        ensures
            r is Ok <==> attributes@.prev_randao@ == LOAD_PREVRANDAO@ && attributes@.timestamp
                > parent_timestamp,
            r is Err && attributes@.prev_randao@ == LOAD_PREVRANDAO@ ==> r->Err_0
                is InvalidTimestamp,
            r is Err && attributes@.prev_randao@ != LOAD_PREVRANDAO@ ==> r->Err_0
                is InvalidPrevRandao,
            r matches Ok(build) ==> {
                &&& build@.env == (BuildEnvironment {
                    block_gas_limit,
                    base_fee,
                    max_blob_count: load_blob_cap(chain_spec.blob_params_at(attributes@.timestamp)),
                    is_osaka: chain_spec.osaka_active(attributes@.timestamp),
                    is_prague: chain_spec.prague_active(attributes@.timestamp),
                    withdrawals_length,
                })
                &&& build@.included == Seq::<IncludedTransaction>::empty()
                &&& build@.sidecars is Empty
                &&& build@.within_budget()
            },
    {
        match validate_payload_attributes(parent_timestamp, attributes) {
            Ok(()) => {},
            Err(e) => {
                return Err(e);
            },
        }
        let timestamp = attributes.timestamp();
        let env = BuildEnvironment {
            block_gas_limit,
            base_fee,
            max_blob_count: compute_load_blob_cap(chain_spec, timestamp),
            is_osaka: chain_spec.is_osaka_active_at_timestamp(timestamp),
            is_prague: chain_spec.is_prague_active_at_timestamp(timestamp),
            withdrawals_length,
        };
        Ok(
            BlockAssembly {
                env,
                cumulative_gas_used: 0,
                block_blob_count: 0,
                block_transactions_rlp_length: 0,
                total_fees: U256::zero(),
                blob_sidecars: BlobSidecars::Empty,
                included: Vec::new(),
            },
        )
    }

    /// What stays the same during the build.
    pub fn environment(&self) -> (r: BuildEnvironment)
        ensures
            r == self@.env,
    {
        self.env
    }

    /// Gas used by the transactions taken so far; never more than the
    /// block's gas limit.
    pub fn gas_used(&self) -> (r: u64)
        ensures
            r == total_gas(self@.included),
            r <= self@.env.block_gas_limit,
    {
        proof {
            use_type_invariant(self);
        }
        self.cumulative_gas_used
    }

    /// Blobs of the transactions taken so far; never more than the block's
    /// cap, which is never more than the network's.
    pub fn blob_count(&self) -> (r: u64)
        ensures
            r == total_blobs(self@.included),
            r <= self@.env.max_blob_count,
            r <= LOAD_MAX_BLOB_COUNT,
    {
        proof {
            use_type_invariant(self);
        }
        self.block_blob_count
    }

    /// What the producer earns from the transactions taken so far.
    pub fn fees(&self) -> (r: U256)
        ensures
            r.value() == total_fees(self@.included),
    {
        proof {
            use_type_invariant(self);
        }
        self.total_fees
    }

    /// The transactions taken so far, in their order.
    pub fn included(&self) -> (r: &Vec<IncludedTransaction>)
        ensures
            r@ == self@.included,
    {
        &self.included
    }

    /// The sidecars of the transactions taken so far.
    pub fn sidecars(&self) -> (r: &BlobSidecars)
        ensures
            r@ == self@.sidecars,
            self@.within_budget(),
    {
        proof {
            use_type_invariant(self);
        }
        &self.blob_sidecars
    }

    /// Decides on the transaction `tx` that the source offers;
    /// `cancelled` tells whether the build has been cancelled. The rules
    /// come in this order: a cancelled build ends; a transaction whose gas
    /// limit does not fit in what is left of the block's is skipped; from
    /// Osaka on, so is one with which the block's encoding may grow over
    /// its limit; so is a blob transaction that names no blob, and one whose
    /// blobs do not fit under the cap. A blob transaction that passes needs
    /// its sidecar, any other is run.
    pub fn next_candidate(self, tx: SignedTransaction, cancelled: bool) -> (r: Selection)
        ensures
            match r {
                Selection::Cancelled => candidate_verdict(self@, tx, cancelled)
                    is Cancelled,
                Selection::Skip { assembly, reason } => candidate_verdict(self@, tx, cancelled)
                    == CandidateVerdict::Skip(reason) && assembly@ == self@,
                Selection::FetchSidecar(pending) => candidate_verdict(self@, tx, cancelled)
                    is FetchSidecar && pending@ == (self@, tx),
                Selection::Execute(pending) => candidate_verdict(self@, tx, cancelled)
                    is Execute && pending@ == (
                    self@,
                    tx,
                    None::<BlobTransactionSidecarVariant>,
                ),
            },
    {
        proof {
            use_type_invariant(&self);
        }
        if cancelled {
            return Selection::Cancelled;
        }
        if tx.gas_limit > self.env.block_gas_limit - self.cumulative_gas_used {
            let reason = InvalidPoolTransactionError::ExceedsGasLimit(
                tx.gas_limit,
                self.env.block_gas_limit,
            );
            return Selection::Skip { assembly: self, reason };
        }
        let estimated_block_size_with_tx: usize = self.block_transactions_rlp_length.saturating_add(
            tx.encoded_length,
        ).saturating_add(self.env.withdrawals_length).saturating_add(BLOCK_SIZE_ALLOWANCE);
        if self.env.is_osaka && estimated_block_size_with_tx > MAX_RLP_BLOCK_SIZE {
            let reason = InvalidPoolTransactionError::OversizedData {
                size: estimated_block_size_with_tx,
                limit: MAX_RLP_BLOCK_SIZE,
            };
            return Selection::Skip { assembly: self, reason };
        }
        match &tx.blob_versioned_hashes {
            Some(hashes) => {
                let tx_blob_count: u64 = hashes.len() as u64;
                if tx_blob_count == 0 {
                    let reason = InvalidPoolTransactionError::Eip4844(
                        Eip4844PoolTransactionError::NoEip4844Blobs,
                    );
                    return Selection::Skip { assembly: self, reason };
                }
                if tx_blob_count > self.env.max_blob_count - self.block_blob_count {
                    let reason = InvalidPoolTransactionError::Eip4844(
                        Eip4844PoolTransactionError::TooManyEip4844Blobs {
                            have: self.block_blob_count.saturating_add(tx_blob_count),
                            permitted: self.env.max_blob_count,
                        },
                    );
                    return Selection::Skip { assembly: self, reason };
                }
                Selection::FetchSidecar(PendingSidecar { assembly: self, tx })
            },
            None => Selection::Execute(PendingExecution { assembly: self, tx, sidecar: None }),
        }
    }

    /// Decides whether the block is worth sealing once the source has no
    /// more transactions: it is where no block is known yet, and else only
    /// where it earns strictly more than the best one known.
    pub fn seal(self, best_fees: Option<&U256>) -> (r: SealDecision)
        ensures
            match r {
                SealDecision::Aborted { fees } => {
                    &&& best_fees matches Some(best) && total_fees(self@.included) <= best.value()
                    &&& fees.value() == total_fees(self@.included)
                },
                SealDecision::Finish(pending) => {
                    &&& best_fees matches Some(best) ==> total_fees(self@.included) > best.value()
                    &&& pending@ == self@
                },
            },
    {
        proof {
            use_type_invariant(&self);
        }
        if !is_better_payload(best_fees, &self.total_fees) {
            return SealDecision::Aborted { fees: self.total_fees };
        }
        SealDecision::Finish(PendingSeal { assembly: self })
    }
}

impl View for PendingSidecar {
    type V = (AssemblyView, SignedTransaction);

    closed spec fn view(&self) -> (AssemblyView, SignedTransaction) {
        (self.assembly@, self.tx)
    }
}

impl PendingSidecar {
    #[verifier::type_invariant]
    spec fn well_formed(self) -> bool {
        &&& self.assembly.well_formed()
        &&& self.assembly@.gas_fits(self.tx)
        &&& self.assembly@.blobs_fit(self.tx)
        &&& self.tx.is_blob_transaction()
        &&& self.tx.blobs() >= 1
    }

    /// The transaction whose sidecar is needed.
    pub fn transaction(&self) -> (r: &SignedTransaction)
        ensures
            *r == self@.1,
    {
        &self.tx
    }

    /// Decides on a blob transaction once its sidecar was looked for. A
    /// transaction without a sidecar is skipped, and so is one whose
    /// sidecar is of the scheme that is not in use at the block's
    /// timestamp (the newer from Osaka on, the older before), and one whose
    /// sidecar does not hold as many blobs as the transaction names. Any
    /// other is run.
    pub fn sidecar_fetched(self, fetched: Option<BlobTransactionSidecarVariant>) -> (r:
        SidecarDecision)
        ensures
            match r {
                SidecarDecision::Skip { assembly, reason } => {
                    &&& sidecar_error(self@.0.env.is_osaka, self@.1, fetched) matches Some(e)
                        && reason == InvalidPoolTransactionError::Eip4844(e)
                    &&& assembly@ == self@.0
                },
                SidecarDecision::Execute(pending) => {
                    &&& sidecar_error(self@.0.env.is_osaka, self@.1, fetched) is None
                    &&& pending@ == (self@.0, self@.1, fetched)
                },
            },
    {
        proof {
            use_type_invariant(&self);
        }
        let PendingSidecar { assembly, tx } = self;
        let expected: usize = match &tx.blob_versioned_hashes {
            Some(hashes) => hashes.len(),
            None => 0,
        };
        let error = match &fetched {
            None => Some(Eip4844PoolTransactionError::MissingEip4844BlobSidecar),
            Some(sidecar) => {
                if assembly.env.is_osaka && !sidecar.is_eip7594() {
                    Some(Eip4844PoolTransactionError::UnexpectedEip4844SidecarAfterOsaka)
                } else if !assembly.env.is_osaka && !sidecar.is_eip4844() {
                    Some(Eip4844PoolTransactionError::UnexpectedEip7594SidecarBeforeOsaka)
                } else if sidecar.blob_count() != expected {
                    Some(
                        Eip4844PoolTransactionError::InvalidEip4844Blob {
                            have: sidecar.blob_count(),
                            expected,
                        },
                    )
                } else {
                    None
                }
            },
        };
        match error {
            Some(e) => SidecarDecision::Skip {
                assembly,
                reason: InvalidPoolTransactionError::Eip4844(e),
            },
            None => SidecarDecision::Execute(PendingExecution { assembly, tx, sidecar: fetched }),
        }
    }
}

impl View for PendingExecution {
    type V = (AssemblyView, SignedTransaction, Option<BlobTransactionSidecarVariant>);

    closed spec fn view(&self) -> (
        AssemblyView,
        SignedTransaction,
        Option<BlobTransactionSidecarVariant>,
    ) {
        (self.assembly@, self.tx, self.sidecar)
    }
}

/// What is decided once a transaction was run.
pub enum ExecutionVerdict {
    /// The transaction is part of the block.
    Include,
    /// The transaction is left out, and the source is not told.
    SkipSilently,
    /// The transaction is left out, and the source drops it and what
    /// depends on it.
    SkipAndInvalidate,
    /// The build is given up.
    Abort(BuildAbort),
}

/// The decision on a transaction that was run. A transaction whose nonce
/// has been used is left out without a word to the source, any other
/// invalid one is reported to it, and any other failure ends the build. So
/// does a report of more gas than the transaction may use, and a
/// transaction that ran without covering the base fee.
pub open spec fn execution_verdict(
    tx: SignedTransaction,
    base_fee: u64,
    outcome: ExecutionOutcome,
) -> ExecutionVerdict {
    match outcome {
        ExecutionOutcome::Success { gas_used } => if gas_used > tx.gas_limit {
            ExecutionVerdict::Abort(
                BuildAbort::GasAboveLimit { gas_used, gas_limit: tx.gas_limit },
            )
        } else if tx.tip_at(base_fee) is None {
            ExecutionVerdict::Abort(BuildAbort::FeeBelowBaseFee)
        } else {
            ExecutionVerdict::Include
        },
        ExecutionOutcome::InvalidTransaction { nonce_too_low } => if nonce_too_low {
            ExecutionVerdict::SkipSilently
        } else {
            ExecutionVerdict::SkipAndInvalidate
        },
        ExecutionOutcome::Failed => ExecutionVerdict::Abort(BuildAbort::Execution),
    }
}

impl PendingExecution {
    #[verifier::type_invariant]
    spec fn well_formed(self) -> bool {
        &&& self.assembly.well_formed()
        &&& self.assembly@.gas_fits(self.tx)
        &&& self.assembly@.blobs_fit(self.tx)
        &&& self.assembly@.sidecar_belongs(self.tx, self.sidecar)
    }

    /// The transaction to run.
    pub fn transaction(&self) -> (r: &SignedTransaction)
        ensures
            *r == self@.1,
    {
        &self.tx
    }

    /// Decides on a transaction once it was run. After a success the block
    /// holds the transaction: its gas, its blobs, the length of its
    /// encoding and what the producer earns from it (the tip per unit of
    /// gas times the gas used) are added to the block's, and its sidecar is
    /// kept. The totals stay within the block's gas limit and blob cap.
    pub fn executed(self, outcome: ExecutionOutcome) -> (r: ExecutionDecision)
        ensures
            match r {
                ExecutionDecision::Included { assembly, skip_blobs } => {
                    &&& execution_verdict(self@.1, self@.0.env.base_fee, outcome) is Include
                    &&& assembly@ == self@.0.with_transaction(
                        self@.1,
                        outcome->gas_used,
                        self@.2,
                    )
                    &&& assembly@.within_budget()
                    &&& skip_blobs == (self@.1.is_blob_transaction() && total_blobs(
                        assembly@.included,
                    ) == assembly@.env.max_blob_count)
                },
                ExecutionDecision::Skipped { assembly, mark_invalid } => {
                    &&& assembly@ == self@.0
                    &&& match mark_invalid {
                        None => execution_verdict(self@.1, self@.0.env.base_fee, outcome)
                            is SkipSilently,
                        Some(reason) => execution_verdict(self@.1, self@.0.env.base_fee, outcome)
                            is SkipAndInvalidate && reason == InvalidPoolTransactionError::Consensus(
                            InvalidTransactionError::TxTypeNotSupported,
                        ),
                    }
                },
                ExecutionDecision::Abort(abort) => execution_verdict(
                    self@.1,
                    self@.0.env.base_fee,
                    outcome,
                ) == ExecutionVerdict::Abort(abort),
            },
    {
        proof {
            use_type_invariant(&self);
        }
        let PendingExecution { assembly, tx, sidecar } = self;
        proof {
            use_type_invariant(&assembly);
        }
        let gas_used: u64 = match outcome {
            ExecutionOutcome::Success { gas_used } => gas_used,
            ExecutionOutcome::InvalidTransaction { nonce_too_low } => {
                let mark_invalid = if nonce_too_low {
                    None
                } else {
                    Some(
                        InvalidPoolTransactionError::Consensus(
                            InvalidTransactionError::TxTypeNotSupported,
                        ),
                    )
                };
                return ExecutionDecision::Skipped { assembly, mark_invalid };
            },
            ExecutionOutcome::Failed => {
                return ExecutionDecision::Abort(BuildAbort::Execution);
            },
        };
        if gas_used > tx.gas_limit {
            return ExecutionDecision::Abort(
                BuildAbort::GasAboveLimit { gas_used, gas_limit: tx.gas_limit },
            );
        }
        let miner_fee: u128 = match tx.effective_tip_per_gas(assembly.env.base_fee) {
            Some(tip) => tip,
            None => {
                return ExecutionDecision::Abort(BuildAbort::FeeBelowBaseFee);
            },
        };
        let tx_blob_count: u64 = match &tx.blob_versioned_hashes {
            Some(hashes) => hashes.len() as u64,
            None => 0,
        };
        let record = IncludedTransaction {
            gas_used,
            blob_count: tx_blob_count,
            tip_per_gas: miner_fee,
            encoded_length: tx.encoded_length,
        };
        let BlockAssembly {
            env,
            cumulative_gas_used,
            block_blob_count,
            block_transactions_rlp_length,
            total_fees: fees_before,
            blob_sidecars,
            included,
        } = assembly;
        let ghost before = included@;
        let ghost sidecars_before = blob_sidecars@;
        proof {
            lemma_budget_is_kept(
                AssemblyView { env, included: before, sidecars: sidecars_before },
                tx,
                gas_used,
                sidecar,
            );
            lemma_totals_push(before, record);
            lemma_fees_bounded_by_gas(before.push(record));
            assert(total_gas(before.push(record)) * pow2_128() <= pow2_64() * pow2_128())
                by (nonlinear_arith)
                requires
                    total_gas(before.push(record)) <= pow2_64(),
            ;
        }
        let block_blob_count: u64 = block_blob_count + tx_blob_count;
        let skip_blobs = tx.blob_versioned_hashes.is_some() && block_blob_count
            == env.max_blob_count;
        let earned = U256::mul_u128_u64(miner_fee, gas_used);
        let total_fees_after = fees_before.checked_add(earned).unwrap();
        let mut included = included;
        included.push(record);
        let mut blob_sidecars = blob_sidecars;
        if let Some(s) = sidecar {
            blob_sidecars.push_sidecar_variant(s);
        }
        let assembly = BlockAssembly {
            env,
            cumulative_gas_used: cumulative_gas_used + gas_used,
            block_blob_count,
            block_transactions_rlp_length: block_transactions_rlp_length.saturating_add(
                tx.encoded_length,
            ),
            total_fees: total_fees_after,
            blob_sidecars,
            included,
        };
        ExecutionDecision::Included { assembly, skip_blobs }
    }
}

impl View for PendingSeal {
    type V = AssemblyView;

    closed spec fn view(&self) -> AssemblyView {
        self.assembly@
    }
}

/// A block that a build has sealed, and what the build took into it.
pub struct BuiltBlock<B> {
    /// The payload to hand out.
    pub payload: LoadBuiltPayload<B>,
    /// The transactions of the block, in their order.
    pub included: Vec<IncludedTransaction>,
    /// Gas limit of the block.
    pub gas_limit: u64,
    /// Most blobs the block was allowed to carry.
    pub max_blob_count: u64,
}

impl PendingSeal {
    /// Whether the requests that sealing gives belong in the payload:
    /// from Prague on.
    pub fn wants_requests(&self) -> (r: bool)
        ensures
            r == self@.env.is_prague,
    {
        self.assembly.env.is_prague
    }

    /// Makes the payload of the sealed `block`, whose encoding has
    /// `rlp_length` bytes. From Osaka on a block larger than a block may be
    /// ends the build. The payload holds the fees earned and the sidecars
    /// collected, and the `requests` from Prague on. The block's
    /// transactions use no more gas than its gas limit, and carry no more
    /// blobs than its cap and than the network's. The sidecars hold those
    /// blobs, so that before Osaka the payload passes the guard on what
    /// leaves in an envelope.
    pub fn finish<B>(
        self,
        id: PayloadId,
        block: B,
        rlp_length: usize,
        requests: Requests,
    ) -> (r: Result<BuiltBlock<B>, BuildAbort>)
        ensures
            r is Err <==> self@.env.is_osaka && rlp_length > MAX_RLP_BLOCK_SIZE,
            r matches Err(abort) ==> abort == (BuildAbort::BlockTooLarge {
                rlp_length,
                max_rlp_length: MAX_RLP_BLOCK_SIZE,
            }),
            r matches Ok(built) ==> {
                &&& built.payload.inner.id == id
                &&& built.payload.inner.block == block
                &&& built.payload.inner.fees.value() == total_fees(self@.included)
                &&& built.payload.inner.sidecars@ == self@.sidecars
                &&& built.payload.inner.requests == (if self@.env.is_prague {
                    Some(requests)
                } else {
                    None
                })
                &&& built.included@ == self@.included
                &&& built.gas_limit == self@.env.block_gas_limit
                &&& built.max_blob_count == self@.env.max_blob_count
                &&& total_gas(built.included@) <= built.gas_limit
                &&& total_blobs(built.included@) <= built.max_blob_count
                &&& built.max_blob_count <= LOAD_MAX_BLOB_COUNT
                &&& sidecars_of_scheme(self@.env.is_osaka, built.payload.inner.sidecars@)
                &&& built.payload.inner.sidecars@.blobs() == total_blobs(built.included@)
                &&& built.payload.inner.sidecars@.count() <= built.payload.inner.sidecars@.blobs()
                &&& !self@.env.is_osaka ==> sidecar_guard_error(
                    built.payload.inner.sidecars@,
                    LOAD_MAX_BLOB_COUNT as usize,
                ) is None
            },
    {
        let PendingSeal { assembly } = self;
        proof {
            use_type_invariant(&assembly);
        }
        if assembly.env.is_osaka && rlp_length > MAX_RLP_BLOCK_SIZE {
            return Err(
                BuildAbort::BlockTooLarge { rlp_length, max_rlp_length: MAX_RLP_BLOCK_SIZE },
            );
        }
        let requests = if assembly.env.is_prague {
            Some(requests)
        } else {
            None
        };
        let BlockAssembly { env, total_fees: fees, blob_sidecars, included, .. } = assembly;
        let payload = EthBuiltPayload::new(id, block, fees, requests).with_sidecars(blob_sidecars);
        Ok(
            BuiltBlock {
                payload: LoadBuiltPayload::new(payload),
                included,
                gas_limit: env.block_gas_limit,
                max_blob_count: env.max_blob_count,
            },
        )
    }
}

/// What a payload job does while no payload has been built yet.
#[derive(Clone, Copy, Debug, PartialEq, Eq, Structural)]
pub enum MissingPayloadBehaviour {
    /// Wait for the build in progress.
    AwaitInProgress,
    /// Build an empty payload beside the one in progress, and hand out
    /// whichever is done first.
    RaceEmptyPayload,
}

/// Settings of the payload builder.
#[derive(Clone, Copy, Debug, PartialEq, Eq, Structural)]
pub struct EthereumBuilderConfig {
    /// The gas limit that blocks should move towards.
    pub desired_gas_limit: u64,
    /// Whether a job waits for the build in progress rather than racing an
    /// empty payload against it.
    pub await_payload_on_missing: bool,
}

/// Service builder for Load payload builders.
#[derive(Clone, Copy, Debug, Default)]
pub struct LoadPayloadServiceBuilder;

impl LoadPayloadServiceBuilder {
    /// The payload builder of a node whose operator configured the gas
    /// limit `configured_gas_limit`: without one the network's gas limit
    /// applies. Jobs wait for the build in progress.
    pub fn build_payload_builder(self, configured_gas_limit: Option<u64>) -> (r: LoadPayloadBuilder)
        ensures
            r.builder_config().desired_gas_limit == (match configured_gas_limit {
                Some(limit) => limit,
                None => LOAD_EXECUTION_GAS_LIMIT,
            }),
            r.builder_config().await_payload_on_missing,
    {
        let desired_gas_limit = match configured_gas_limit {
            Some(limit) => limit,
            None => LOAD_EXECUTION_GAS_LIMIT,
        };
        LoadPayloadBuilder::new(
            EthereumBuilderConfig { desired_gas_limit, await_payload_on_missing: true },
        )
    }
}

/// Why no payload can be handed out.
#[derive(Clone, Copy, Debug, PartialEq, Eq, Structural)]
pub enum PayloadBuilderError {
    /// The build ended without a payload.
    MissingPayload,
}

/// Load payload builder that enforces blob caps during transaction
/// selection.
#[derive(Clone, Copy, Debug)]
pub struct LoadPayloadBuilder {
    builder_config: EthereumBuilderConfig,
}

impl LoadPayloadBuilder {
    pub closed spec fn builder_config(self) -> EthereumBuilderConfig {
        self.builder_config
    }

    pub fn new(builder_config: EthereumBuilderConfig) -> (r: Self)
        ensures
            r.builder_config() == builder_config,
    {
        Self { builder_config }
    }

    /// The settings of the builder.
    pub fn config(&self) -> (r: EthereumBuilderConfig)
        ensures
            r == self.builder_config(),
    {
        self.builder_config
    }

    /// What a job does while no payload has been built yet.
    pub fn on_missing_payload(&self) -> (r: MissingPayloadBehaviour)
        ensures
            r == (if self.builder_config().await_payload_on_missing {
                MissingPayloadBehaviour::AwaitInProgress
            } else {
                MissingPayloadBehaviour::RaceEmptyPayload
            }),
    {
        if self.builder_config.await_payload_on_missing {
            MissingPayloadBehaviour::AwaitInProgress
        } else {
            MissingPayloadBehaviour::RaceEmptyPayload
        }
    }

    /// Begins a build; see `BlockAssembly::start`.
    pub fn try_build(
        &self,
        chain_spec: &LoadChainSpec,
        parent_timestamp: u64,
        attributes: &LoadPayloadBuilderAttributes,
        block_gas_limit: u64,
        base_fee: u64,
        withdrawals_length: usize,
    ) -> (r: Result<BlockAssembly, LoadPayloadAttributesError>)
        ensures
            r is Ok <==> attributes@.prev_randao@ == LOAD_PREVRANDAO@ && attributes@.timestamp
                > parent_timestamp,
            r matches Ok(build) ==> {
                &&& build@.env == (BuildEnvironment {
                    block_gas_limit,
                    base_fee,
                    max_blob_count: load_blob_cap(chain_spec.blob_params_at(attributes@.timestamp)),
                    is_osaka: chain_spec.osaka_active(attributes@.timestamp),
                    is_prague: chain_spec.prague_active(attributes@.timestamp),
                    withdrawals_length,
                })
                &&& build@.included == Seq::<IncludedTransaction>::empty()
                &&& build@.sidecars is Empty
            },
    {
        BlockAssembly::start(
            chain_spec,
            parent_timestamp,
            attributes,
            block_gas_limit,
            base_fee,
            withdrawals_length,
        )
    }

    /// The payload of a build without transactions, or the error that there
    /// is none.
    pub fn build_empty_payload<P>(&self, outcome: BuildOutcome<P>) -> (r: Result<
        P,
        PayloadBuilderError,
    >)
        ensures
            r == (match outcome {
                BuildOutcome::Better { payload } => Ok::<P, PayloadBuilderError>(payload),
                _ => Err::<P, PayloadBuilderError>(PayloadBuilderError::MissingPayload),
            }),
    {
        match outcome.into_payload() {
            Some(payload) => Ok(payload),
            None => Err(PayloadBuilderError::MissingPayload),
        }
    }
}

} // verus!
