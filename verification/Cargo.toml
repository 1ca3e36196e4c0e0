[package]
name = "totp_vault"
version = "0.1.0"
edition = "2021"
publish = false

[dependencies]
cosmwasm-std = "1"
cosmwasm-storage = "1"
serde = { version = "1", default-features = false, features = ["derive"] }
thiserror = "1"
totp-rs = "5"
