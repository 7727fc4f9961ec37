[package]
name = "nft-staking"
version = "0.1.0"
edition = "2021"
publish = false

[dependencies]
cosmwasm-schema = "=1.5.11"
cosmwasm-std = "=1.5.11"
cw-ownable = "=0.5.1"
cw-storage-plus = "=1.2.0"
cw2 = "=1.1.2"
cw721 = "=0.18.0"
cw721-base = "=0.18.0"
schemars = "=0.8.22"
serde = { version = "=1.0.229", default-features = false, features = ["derive"] }
thiserror = "=1.0.69"
