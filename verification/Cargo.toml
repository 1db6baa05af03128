[package]
name = "coinswap-btcpay"
version = "0.1.0"
edition = "2021"
publish = false

[dependencies]
btcpay-plugin = "=0.1.0-alpha.1"
log = { version = "=0.4.35", features = ["std"] }
