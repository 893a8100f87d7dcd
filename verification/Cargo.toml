[package]
name = "secure_keys"
version = "0.1.0"
edition = "2021"
publish = false

[dependencies]
swift-bridge = "*"
