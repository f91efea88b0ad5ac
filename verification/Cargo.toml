[package]
name = "check_spin_cli_version"
version = "0.1.0"
edition = "2021"
publish = false

[dependencies]
anyhow = "=1.0.104"
serde_json = "=1.0.154"
spin-sdk = "=3.1.1"

[dev-dependencies]
serde = "=1.0.229"
