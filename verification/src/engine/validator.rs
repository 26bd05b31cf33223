//! The network's guard on what the engine API takes in: payloads and
//! payload attributes.
//!
//! The randomness of either is the network's constant, a payload declares
//! no more blob hashes than the network's budget, and it brings a list of
//! requests only where Prague is active at its timestamp. The checks of the
//! base protocol follow these and are the caller's.

use vstd::prelude::*;
use vstd::string::StringExecFns;
use crate::chainspec::{LoadChainSpec, LOAD_MAX_BLOB_COUNT};
use crate::engine::payload::{
    prev_randao_message, ExecutionData, LoadExecutionData, LoadPayloadAttributes,
};
use crate::primitives::{hash_eq, B256};
use crate::text::{decimal, decimal_string};
use crate::LOAD_PREVRANDAO;

verus! {

/// The version of an engine API message.
#[derive(Clone, Copy, Debug, PartialEq, Eq, Structural)]
pub enum EngineApiMessageVersion {
    V1,
    V2,
    V3,
    V4,
    V5,
}

/// Why an object of the engine API is refused.
#[derive(Clone, Debug, PartialEq, Eq)]
pub enum EngineObjectValidationError {
    /// A parameter is invalid; the text says which.
    InvalidParams(String),
    /// The method belongs to a fork that is not active.
    UnsupportedFork,
}

/// A payload or payload attributes, whichever a message brought.
#[derive(Clone, Copy, Debug)]
pub enum PayloadOrAttributes<'a> {
    ExecutionPayload(&'a LoadExecutionData),
    PayloadAttributes(&'a LoadPayloadAttributes),
}

impl<'a> PayloadOrAttributes<'a> {
    pub open spec fn timestamp_of(self) -> u64 {
        match self {
            PayloadOrAttributes::ExecutionPayload(payload) => payload@.payload.v1().timestamp,
            PayloadOrAttributes::PayloadAttributes(attrs) => attrs.inner.timestamp,
        }
    }

    pub fn from_execution_payload(payload: &'a LoadExecutionData) -> (r: Self)
        ensures
            r == PayloadOrAttributes::ExecutionPayload(payload),
    {
        PayloadOrAttributes::ExecutionPayload(payload)
    }

    pub fn from_attributes(attributes: &'a LoadPayloadAttributes) -> (r: Self)
        ensures
            r == PayloadOrAttributes::PayloadAttributes(attributes),
    {
        PayloadOrAttributes::PayloadAttributes(attributes)
    }

    /// The timestamp of the payload or of the attributes.
    pub fn timestamp(&self) -> (r: u64)
        ensures
            r == self.timestamp_of(),
    {
        match self {
            PayloadOrAttributes::ExecutionPayload(payload) => payload.timestamp(),
            PayloadOrAttributes::PayloadAttributes(attrs) => attrs.timestamp(),
        }
    }
}

/// The rule of the network that a payload or payload attributes break.
pub enum GuardViolation {
    /// The randomness is not the network's constant.
    InvalidPrevRandao,
    /// The payload declares this many blob hashes, more than the budget.
    TooManyVersionedHashes(nat),
    /// The payload brings requests, and Prague is not active at its
    /// timestamp.
    PragueFieldsBeforeActivation(u64),
}

impl GuardViolation {
    /// What the refusal says.
    pub open spec fn message(self) -> Seq<char> {
        match self {
            GuardViolation::InvalidPrevRandao => prev_randao_message(),
            GuardViolation::TooManyVersionedHashes(count) => "too many blob versioned hashes: "@
                + decimal(count) + " (max "@ + decimal(LOAD_MAX_BLOB_COUNT as nat) + ")"@,
            GuardViolation::PragueFieldsBeforeActivation(timestamp) => {
                "Prague payload fields not active at timestamp "@ + decimal(timestamp as nat)
            },
        }
    }
}

/// The rule that an inbound payload breaks first, on a chain whose Prague
/// is active at the payload's timestamp or not: the randomness, then the
/// number of declared blob hashes, then requests before Prague.
pub open spec fn payload_violation(prague_active: bool, data: ExecutionData) -> Option<
    GuardViolation,
> {
    if data.payload.v1().prev_randao@ != LOAD_PREVRANDAO@ {
        Some(GuardViolation::InvalidPrevRandao)
    } else if data.sidecar.declared_hashes() is Some && data.sidecar.declared_hashes()->0.len()
        > LOAD_MAX_BLOB_COUNT {
        Some(GuardViolation::TooManyVersionedHashes(data.sidecar.declared_hashes()->0.len()))
    } else if !prague_active && data.sidecar.has_requests() {
        Some(GuardViolation::PragueFieldsBeforeActivation(data.payload.v1().timestamp))
    } else {
        None
    }
}

/// The rule that payload attributes break, if any: the randomness.
pub open spec fn attributes_violation(attributes: LoadPayloadAttributes) -> Option<GuardViolation> {
    if attributes.inner.prev_randao@ != LOAD_PREVRANDAO@ {
        Some(GuardViolation::InvalidPrevRandao)
    } else {
        None
    }
}

/// The rule that a payload or payload attributes break first, if any.
pub open spec fn guard_violation(chain_spec: LoadChainSpec, object: PayloadOrAttributes) -> Option<
    GuardViolation,
> {
    match object {
        PayloadOrAttributes::ExecutionPayload(payload) => payload_violation(
            chain_spec.prague_active(payload@.payload.v1().timestamp),
            payload@,
        ),
        PayloadOrAttributes::PayloadAttributes(attrs) => attributes_violation(*attrs),
    }
}

/// A payload declares no more blob hashes than the network's budget; one
/// that declares more is refused for an invalid parameter, with the number
/// it declares and the budget.
pub fn ensure_versioned_hashes_in_budget(versioned_hashes: &[B256]) -> (r: Result<
    (),
    EngineObjectValidationError,
>)
    ensures
        r is Ok <==> versioned_hashes@.len() <= LOAD_MAX_BLOB_COUNT,
        r is Err ==> (r matches Err(EngineObjectValidationError::InvalidParams(message))
            && message@ == GuardViolation::TooManyVersionedHashes(
            versioned_hashes@.len(),
        ).message()),
{
    if versioned_hashes.len() > LOAD_MAX_BLOB_COUNT as usize {
        let mut message = String::from_str("too many blob versioned hashes: ");
        message.append(decimal_string(versioned_hashes.len() as u64).as_str());
        message.append(" (max ");
        message.append(decimal_string(LOAD_MAX_BLOB_COUNT).as_str());
        message.append(")");
        return Err(EngineObjectValidationError::InvalidParams(message));
    }
    Ok(())
}

fn invalid_prev_randao() -> (r: EngineObjectValidationError)
    ensures
        r matches EngineObjectValidationError::InvalidParams(message) && message@
            == GuardViolation::InvalidPrevRandao.message(),
{
    EngineObjectValidationError::InvalidParams(
        String::from_str("prev_randao must be constant 0x01 for Load"),
    )
}

/// Load engine validator: the network's rules on top of the chain's
/// specification.
#[derive(Clone, Debug)]
pub struct LoadEngineValidator {
    chain_spec: LoadChainSpec,
}

/// Builder for the Load engine validator (used by node add-ons).
#[derive(Clone, Copy, Debug, Default)]
pub struct LoadEngineValidatorBuilder;

impl LoadEngineValidatorBuilder {
    /// The validator of a node on the chain `chain_spec`.
    pub fn build(self, chain_spec: LoadChainSpec) -> (r: LoadEngineValidator)
        ensures
            r@ == chain_spec,
    {
        LoadEngineValidator::new(chain_spec)
    }
}

impl View for LoadEngineValidator {
    type V = LoadChainSpec;

    closed spec fn view(&self) -> LoadChainSpec {
        self.chain_spec
    }
}

impl LoadEngineValidator {
    pub fn new(chain_spec: LoadChainSpec) -> (r: Self)
        ensures
            r@ == chain_spec,
    {
        Self { chain_spec }
    }

    pub fn chain_spec(&self) -> (r: &LoadChainSpec)
        ensures
            *r == self@,
    {
        &self.chain_spec
    }

    /// Checks a payload or payload attributes against the rules of the
    /// network. A payload is refused if its randomness is not the constant,
    /// if it declares more blob hashes than the budget, or if it brings a
    /// list of requests while Prague is not active at its timestamp;
    /// attributes are refused if their randomness is not the constant. The
    /// refusal is `InvalidParams` with the text of the first rule broken.
    pub fn validate_version_specific_fields(
        &self,
        version: EngineApiMessageVersion,
        payload_or_attrs: PayloadOrAttributes<'_>,
    ) -> (r: Result<(), EngineObjectValidationError>)
        ensures
            r is Ok <==> guard_violation(self@, payload_or_attrs) is None,
            r is Err ==> (r matches Err(EngineObjectValidationError::InvalidParams(message))
                && message@ == guard_violation(self@, payload_or_attrs)->0.message()),
    {
        let prague_active = self.chain_spec.is_prague_active_at_timestamp(
            payload_or_attrs.timestamp(),
        );
        match payload_or_attrs {
            PayloadOrAttributes::ExecutionPayload(payload) => {
                if !hash_eq(&payload.payload().prev_randao(), &LOAD_PREVRANDAO) {
                    return Err(invalid_prev_randao());
                }
                if let Some(versioned_hashes) = payload.sidecar().versioned_hashes() {
                    match ensure_versioned_hashes_in_budget(versioned_hashes.as_slice()) {
                        Ok(()) => {},
                        Err(e) => {
                            return Err(e);
                        },
                    }
                }
                if !prague_active && payload.sidecar().requests().is_some() {
                    let mut message = String::from_str(
                        "Prague payload fields not active at timestamp ",
                    );
                    message.append(decimal_string(payload.payload().timestamp()).as_str());
                    return Err(EngineObjectValidationError::InvalidParams(message));
                }
            },
            PayloadOrAttributes::PayloadAttributes(attrs) => {
                if !hash_eq(&attrs.prev_randao(), &LOAD_PREVRANDAO) {
                    return Err(invalid_prev_randao());
                }
            },
        }
        Ok(())
    }

    /// Checks payload attributes against the rules of the network: they
    /// are refused, as `InvalidParams`, exactly when their randomness is
    /// not the constant.
    pub fn ensure_well_formed_attributes(
        &self,
        version: EngineApiMessageVersion,
        attributes: &LoadPayloadAttributes,
    ) -> (r: Result<(), EngineObjectValidationError>)
        ensures
            r is Ok <==> attributes.inner.prev_randao@ == LOAD_PREVRANDAO@,
            r is Err ==> (r matches Err(EngineObjectValidationError::InvalidParams(message))
                && message@ == prev_randao_message()),
    {
        if !hash_eq(&attributes.prev_randao(), &LOAD_PREVRANDAO) {
            return Err(invalid_prev_randao());
        }
        Ok(())
    }
}

/// The guard can be repeated: where one run of
/// `validate_version_specific_fields` passed, any other run on the same
/// chain and object passes. What it let through keeps each rule: the
/// randomness is the constant, a payload declares no more blob hashes than
/// the budget, and brings requests only where Prague is active at its
/// timestamp.
pub proof fn lemma_guard_repeats(
    chain_spec: LoadChainSpec,
    object: PayloadOrAttributes,
    first: Result<(), EngineObjectValidationError>,
    second: Result<(), EngineObjectValidationError>,
)
    requires
        first is Ok <==> guard_violation(chain_spec, object) is None,
        second is Ok <==> guard_violation(chain_spec, object) is None,
        first is Ok,
    ensures
        second is Ok,
        object matches PayloadOrAttributes::ExecutionPayload(payload) ==> {
            &&& payload@.payload.v1().prev_randao@ == LOAD_PREVRANDAO@
            &&& payload@.sidecar.declared_hashes() matches Some(hashes) ==> hashes.len()
                <= LOAD_MAX_BLOB_COUNT
            &&& payload@.sidecar.has_requests() ==> chain_spec.prague_active(
                payload@.payload.v1().timestamp,
            )
        },
        object matches PayloadOrAttributes::PayloadAttributes(attrs) ==> attrs.inner.prev_randao@
            == LOAD_PREVRANDAO@,
{
}

/// Requests are gated by Prague alone: a payload that is refused only for
/// bringing requests too early passes on a chain where Prague is active at
/// its timestamp.
pub proof fn lemma_requests_pass_once_prague_is_active(data: ExecutionData)
    requires
        payload_violation(false, data) is Some,
        payload_violation(false, data)->0 is PragueFieldsBeforeActivation,
    ensures
        payload_violation(true, data) is None,
{
}

} // verus!
