[package]
name = "testore"
version = "0.1.0"
edition = "2021"
publish = false

[dependencies]
sha3 = "0.10"
anyhow = "1"
chrono = "0.4"
colored = "2"
env_logger = "0.11"
serde_json = "1"
tokio = { version = "1", features = ["macros", "rt-multi-thread", "time"] }
solana-sdk = "2"
