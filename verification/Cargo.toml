[package]
name = "eth_convert"
version = "0.1.0"
edition = "2021"
publish = false

[dependencies]
ethers = { version = "=2.0.14", default-features = false }
eyre = "=0.6.14"
ruint = "*"
