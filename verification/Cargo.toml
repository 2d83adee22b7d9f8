[package]
name = "btc_outbound"
version = "0.1.0"
edition = "2021"
publish = false

[dependencies]
bitcoincore-rpc = "*"
ethers = { version = "*", default-features = false }
log = "*"
sentry = { version = "*", default-features = false }
tokio = { version = "*", features = ["sync", "time", "rt"] }
tokio-stream = "*"
