[package]
name = "load_reth"
version = "0.1.0"
edition = "2021"
publish = false

[dependencies]
alloy-consensus = "=1.1.3"
alloy-eips = "=1.1.3"
alloy-genesis = "=1.1.3"
alloy-primitives = "=1.7.3"
alloy-rlp = "=0.3.16"
alloy-rpc-types-engine = "=1.1.3"
# Not named in the code: alloy-consensus 1.1.3 compiles only with the alloy-tx-macros
# of its own version, and a plain requirement would pick a later one.
alloy-tx-macros = "=1.1.3"
async-trait = "=0.1.92"
eyre = "=0.6.14"
jsonrpsee = { version = "=0.26.1", features = ["server"] }
serde = { version = "=1.0.229", features = ["derive"] }
serde_json = "=1.0.154"
thiserror = "=2.0.21"
tokio = { version = "=1.54.1", features = ["time"] }
tower = "=0.5.3"
tracing = "=0.1.44"
