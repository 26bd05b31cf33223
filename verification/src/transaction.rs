//! The transactions that blocks are built from, as far as block assembly
//! reads them.

use vstd::prelude::*;
use crate::primitives::B256;

verus! {

/// A signed transaction: its gas limit, its fee fields, the versioned
/// hashes of the blobs it carries, and the length of its encoding.
#[derive(Clone, Debug, PartialEq, Eq)]
pub struct SignedTransaction {
    /// Gas that the transaction may use at most.
    pub gas_limit: u64,
    /// Most that the sender pays per unit of gas (the gas price of a
    /// transaction without a fee market).
    pub max_fee_per_gas: u128,
    /// Most that the sender tips per unit of gas; `None` for a transaction
    /// without a fee market.
    pub max_priority_fee_per_gas: Option<u128>,
    /// Versioned hashes of the blobs; `Some` exactly for a blob transaction.
    pub blob_versioned_hashes: Option<Vec<B256>>,
    /// Length in bytes of the encoded transaction.
    pub encoded_length: usize,
}

/// A transaction as it came out of the pool.
pub type Transaction = SignedTransaction;

impl SignedTransaction {
    /// Whether this is a blob transaction.
    pub open spec fn is_blob_transaction(self) -> bool {
        self.blob_versioned_hashes is Some
    }

    /// The number of blobs the transaction carries.
    pub open spec fn blobs(self) -> nat {
        match self.blob_versioned_hashes {
            Some(hashes) => hashes@.len(),
            None => 0,
        }
    }

    /// What the block's producer earns per unit of gas at base fee
    /// `base_fee`; `None` where the transaction does not cover the base fee.
    pub open spec fn tip_at(self, base_fee: u64) -> Option<u128> {
        if self.max_fee_per_gas < base_fee {
            None
        } else {
            let fee = (self.max_fee_per_gas - base_fee) as u128;
            match self.max_priority_fee_per_gas {
                Some(priority) => Some(if fee <= priority { fee } else { priority }),
                None => Some(fee),
            }
        }
    }

    /// Whether the transaction is a blob transaction.
    pub fn is_eip4844(&self) -> (r: bool)
        ensures
            r == self.is_blob_transaction(),
    {
        self.blob_versioned_hashes.is_some()
    }

    /// What the block's producer earns per unit of gas: the fee cap less the
    /// base fee, and no more than the priority fee cap.
    pub fn effective_tip_per_gas(&self, base_fee: u64) -> (r: Option<u128>)
        ensures
            r == self.tip_at(base_fee),
    {
        let base: u128 = base_fee as u128;
        if self.max_fee_per_gas < base {
            return None;
        }
        let fee: u128 = self.max_fee_per_gas - base;
        match self.max_priority_fee_per_gas {
            Some(priority) => Some(if fee <= priority { fee } else { priority }),
            None => Some(fee),
        }
    }
}

/// The number of blob versioned hashes carried by a signed transaction: 0
/// for anything but a blob transaction.
pub fn blob_count(tx: &SignedTransaction) -> (r: usize)
    ensures
        r == tx.blobs(),
{
    match &tx.blob_versioned_hashes {
        Some(hashes) => hashes.len(),
        None => 0,
    }
}

} // verus!
