[package]
name = "invariant_replay"
version = "0.1.0"
edition = "2021"
publish = false

[dependencies]
alloy-json-abi = "*"
alloy-dyn-abi = "*"

[dev-dependencies]
alloy-primitives = "*"
