[package]
name = "nft_reveal"
version = "0.1.0"
edition = "2021"
publish = false

[dependencies]
cosmwasm-std = "1.1"
cw721 = "0.15"
cw721-base = "0.15"
cw-storage-plus = "0.15"
schemars = "0.8"
serde = { version = "1.0", features = ["derive"] }
thiserror = "1.0"
