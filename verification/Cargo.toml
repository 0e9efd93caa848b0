[package]
name = "bitcoind"
version = "0.1.0"
edition = "2021"
publish = false

[dependencies]
anyhow = "1"
bitcoincore-rpc = "*"
log = "0.4"
tempfile = "3"
which = "*"
