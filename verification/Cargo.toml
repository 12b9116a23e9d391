[package]
name = "lm3s6965"
version = "0.2.0"
edition = "2021"
publish = false

[dependencies]
cortex-m = "*"
cortex-m-rt = { version = "*", features = ["device"] }
