//! Block assembly and the guard on what enters and leaves the engine.

pub mod builder;
pub mod payload;
pub mod rpc;
pub mod validator;
