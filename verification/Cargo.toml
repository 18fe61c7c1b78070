[package]
name = "wallet_cli"
version = "0.1.0"
edition = "2021"
publish = false

[dependencies]
anyhow = "1"
dialoguer = "*"
iota-wallet = "*"
notify-rust = "4"
tokio = { version = "1", features = ["full"] }
