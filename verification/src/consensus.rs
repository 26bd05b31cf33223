//! Passive consensus: headers and bodies are validated by the rules of the
//! base protocol, and block production and finality are driven from outside
//! over the engine API.

use vstd::prelude::*;

verus! {

/// Consensus builder that wraps the standard Ethereum beacon consensus in
/// passive mode.
#[derive(Clone, Copy, Debug, Default)]
pub struct LoadConsensusBuilder;

} // verus!
