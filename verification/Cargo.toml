[package]
name = "liquidity_deployment_tool"
version = "0.1.0"
edition = "2021"
publish = false

[dependencies]
anyhow = "1"
bech32 = "0.11"
chrono = "0.4"
clap = { version = "4", features = ["derive"] }
cosmwasm-std = "2"
cw-ownable = "2"
serde = { version = "1", features = ["derive"] }
serde_json = "1"
sha2 = "0.10"
