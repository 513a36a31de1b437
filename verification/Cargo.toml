[package]
name = "seismic_provider"
version = "0.1.0"
edition = "2021"
publish = false

[dependencies]
alloy-primitives = { version = "=0.8.26", features = ["serde"] }
anyhow = "=1.0.104"
rand = "=0.8.8"
seismic-enclave = "=0.1.0"
serde = "=1.0.229"
