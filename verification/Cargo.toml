[package]
name = "ag_coin"
version = "0.1.0"
edition = "2021"
publish = false

[dependencies]
sp-core = "*"
sp-keyring = "*"
sp-runtime = "*"
sp-genesis-builder = "*"
serde_json = "*"

[dev-dependencies]
serde_json = "*"
