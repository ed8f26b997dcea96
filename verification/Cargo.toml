[package]
name = "connext"
version = "0.1.0"
edition = "2021"
publish = false

[dependencies]
libloading = "0.6"
num-traits = "0.2"
num-derive = "0.3"
