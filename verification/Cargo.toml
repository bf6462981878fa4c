[package]
name = "ledgerflow"
version = "0.1.0"
edition = "2021"
publish = false

[dependencies]
alloy-primitives = "*"
alloy-signer = "*"
alloy-signer-local = "*"
alloy-consensus = "*"
alloy-rlp = "*"
serde_json = "*"
ureq = { version = "*", default-features = false }
eyre = "*"
