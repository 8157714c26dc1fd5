[package]
name = "axon_abi"
version = "0.1.0"
edition = "2021"
publish = false

[dependencies]
ethers-core = "=2.0.14"
axon-tools = { version = "=0.1.1", features = ["proof"] }
ckb-jsonrpc-types = "=1.2.1"
tiny-keccak = { version = "=2.0.2", features = ["keccak"] }
