[package]
name = "mint_core"
version = "0.1.0"
edition = "2021"
publish = false

[dependencies]
cosmwasm-std = "1.0"
cw721 = "0.13"
cw721-base = "0.13"
cw-storage-plus = "0.13"
schemars = "0.8"
serde = "1.0"
