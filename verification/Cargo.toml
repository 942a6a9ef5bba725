[package]
name = "agent_registry"
version = "0.1.0"
edition = "2021"
publish = false

[dependencies]
dcap-qvl = { version = "=0.5.3", default-features = false, features = ["std", "rustcrypto", "default-x509"] }
hex = "=0.4.3"
near-sdk = { version = "=5.29.1", features = ["non-contract-usage"] }
serde_json = "=1.0.154"
sha2 = "=0.10.9"
