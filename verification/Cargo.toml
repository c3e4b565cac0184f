[package]
name = "layershell"
version = "0.1.0"
edition = "2021"
publish = false

[dependencies]
log = "=0.4.34"
smithay-client-toolkit = { version = "=0.21.1", default-features = false }
