[package]
name = "tx_verifier"
version = "0.1.0"
edition = "2021"
publish = false

[dependencies]
ckb-error = "*"
ckb-types = "*"
derive_more = { version = "*", features = ["display"] }
