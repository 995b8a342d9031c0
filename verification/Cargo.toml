[package]
name = "dtg-credentials"
version = "0.1.0"
edition = "2021"
publish = false

[dependencies]
affinidi-data-integrity = "=0.3.6"
affinidi-secrets-resolver = "=0.5.15"
chrono = { version = "=0.4.45", features = ["serde"] }
serde = { version = "=1.0.229", features = ["derive"] }
serde_json = { version = "=1.0.154", features = ["preserve_order"] }
thiserror = "=2.0.21"
