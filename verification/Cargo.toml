[package]
name = "nxdk_rs"
version = "0.1.0"
edition = "2021"
publish = false

[dependencies]
embedded-io = "*"
embedded-io-async = "*"
futures-lite = "*"
