//! Execution-layer rules of the Load Network: chain parameters, the protocol
//! invariant guard, block assembly and the RPC admission gate.

use vstd::prelude::*;

pub mod chainspec;
pub mod consensus;
pub mod engine;
pub mod evm;
pub mod node;
pub mod pool;
pub mod primitives;
pub mod rpc;
pub mod text;
pub mod transaction;
pub mod version;

pub use chainspec::{LoadChainSpec, LoadChainSpecParser};
pub use engine::builder::LoadPayloadServiceBuilder;
pub use engine::payload::{empty_load_payload, LoadBuiltPayload, LoadEngineTypes};
pub use evm::LoadEvmConfig;
pub use node::LoadNode;
pub use pool::LoadPoolBuilder;

verus! {

/// Canonical PREVRANDAO value of the network: thirty-one zero bytes, then one.
pub const LOAD_PREVRANDAO: [u8; 32] = [
    0, 0, 0, 0, 0, 0, 0, 0, 0, 0, 0, 0, 0, 0, 0, 0,
    0, 0, 0, 0, 0, 0, 0, 0, 0, 0, 0, 0, 0, 0, 0, 1,
];

/// Whether `value` is the canonical PREVRANDAO.
pub fn is_load_prev_randao(value: &[u8; 32]) -> (r: bool)
    ensures
        r == (value@ == LOAD_PREVRANDAO@),
{
    let mut i: usize = 0;
    while i < 32
        invariant
            i <= 32,
            forall|j: int| 0 <= j < i ==> value@[j] == LOAD_PREVRANDAO@[j],
        decreases 32 - i,
    {
        if value[i] != LOAD_PREVRANDAO[i] {
            return false;
        }
        i += 1;
    }
    assert(value@ =~= LOAD_PREVRANDAO@);
    true
}

} // verus!
