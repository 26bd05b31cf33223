//! What stands in front of the node's RPC methods.

pub mod backpressure;
