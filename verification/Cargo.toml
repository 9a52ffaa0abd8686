[package]
name = "device_identity"
version = "0.1.0"
edition = "2021"
publish = false

[dependencies]
bytes = "1"
pyo3 = { version = "0.20", features = ["auto-initialize"] }
ricq-core = "*"
serde_json = "1"
