[package]
name = "solana_toolkit"
version = "0.1.0"
edition = "2021"
publish = false

[dependencies]
anchor-lang = "0.30"
anyhow = "1"
clap = { version = "4", features = ["derive"] }
env_logger = "0.11"
futures = "0.3"
log = "0.4"
prost = "0.12"
serde = { version = "1", features = ["derive"] }
serde_yaml = "0.9"
solana-sdk = "1.18"
tokio = { version = "1", features = ["full"] }
tonic = "0.11"
