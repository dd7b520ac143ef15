[package]
name = "overlay"
version = "0.1.0"
edition = "2021"
publish = false

[dependencies]
local-ip-address = "*"
reqwest = { version = "*", default-features = false }
