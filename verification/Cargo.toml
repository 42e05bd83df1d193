[package]
name = "vxi11"
version = "0.1.0"
edition = "2021"
publish = false

[dependencies]
onc-rpc = "*"
rand = "*"
