[package]
name = "creditra-credit"
version = "0.1.0"
edition = "2021"
publish = false

[dependencies]
cosmwasm-schema = "=2.3.6"
cosmwasm-std = "=2.3.6"
cw-storage-plus = "=2.0.0"
serde_json = { version = "=1.0.154", features = ["preserve_order", "raw_value"] }
