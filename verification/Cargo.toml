[package]
name = "evm_harness"
version = "0.1.0"
edition = "2021"
publish = false

[dependencies]
evm = "0.37"
primitive-types = "0.12"
sha3 = "0.10"
hex = "0.4"
eyre = "0.6"
ethers-solc = { version = "2", default-features = false }
