//! The node's own settings where it departs from the base protocol's.

use vstd::prelude::*;
use crate::chainspec::{LoadChainSpec, LOAD_MAX_BLOBS_PER_TX};
use crate::engine::payload::LoadLocalPayloadAttributesBuilder;

verus! {

/// Bytes of one blob.
pub const BYTES_PER_BLOB: usize = 131_072;

/// Soft limit, in bytes, of a response with pooled transactions: room for
/// one transaction with as many blobs as a transaction may carry.
pub const LOAD_POOLED_TX_SOFT_LIMIT_BYTES: usize = 4_194_304;

/// Load Network node type configuration.
#[derive(Clone, Copy, Debug, Default)]
pub struct LoadNode;

impl LoadNode {
    /// Returns a payload attributes builder for local/debug block
    /// production on the chain given.
    pub fn local_payload_attributes_builder(chain_spec: LoadChainSpec) -> (r:
        LoadLocalPayloadAttributesBuilder)
        ensures
            r.0 == chain_spec,
    {
        LoadLocalPayloadAttributesBuilder(chain_spec)
    }
}

/// Soft limits of the transaction fetcher, in bytes.
#[derive(Clone, Copy, Debug, PartialEq, Eq, Structural)]
pub struct TransactionFetcherConfig {
    /// Soft limit of a response with pooled transactions.
    pub soft_limit_byte_size_pooled_transactions_response: usize,
    /// Soft limit of a response with pooled transactions when a request is
    /// packed.
    pub soft_limit_byte_size_pooled_transactions_response_on_pack_request: usize,
}

/// Load-specific network builder.
#[derive(Clone, Copy, Debug, Default)]
pub struct LoadNetworkBuilder;

impl LoadNetworkBuilder {
    /// The soft limits of the transaction fetcher: both make room for one
    /// transaction with as many blobs as a transaction may carry.
    pub fn transaction_fetcher_config(self) -> (r: TransactionFetcherConfig)
        ensures
            r.soft_limit_byte_size_pooled_transactions_response == LOAD_MAX_BLOBS_PER_TX
                * BYTES_PER_BLOB,
            r.soft_limit_byte_size_pooled_transactions_response_on_pack_request
                == LOAD_MAX_BLOBS_PER_TX * BYTES_PER_BLOB,
    {
        TransactionFetcherConfig {
            soft_limit_byte_size_pooled_transactions_response: LOAD_POOLED_TX_SOFT_LIMIT_BYTES,
            soft_limit_byte_size_pooled_transactions_response_on_pack_request: LOAD_POOLED_TX_SOFT_LIMIT_BYTES,
        }
    }
}

} // verus!
