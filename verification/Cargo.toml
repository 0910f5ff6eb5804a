[package]
name = "fast_price_feed"
version = "0.1.0"
edition = "2021"
publish = false

[dependencies]
semver = "1"
cosmwasm-std = "1"
cosmwasm-schema = "1"
cw-storage-plus = "1"
cw2 = "1"
thiserror = "1"
