[package]
name = "rotosports_config"
version = "0.1.0"
edition = "2021"
publish = false

[dependencies]
cosmwasm-std = "1.1"
cosmwasm-schema = "1.1"
cw-storage-plus = "0.15"
