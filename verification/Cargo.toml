[package]
name = "app-boilerplate-rust"
version = "1.8.0"
edition = "2021"
publish = false

[dependencies]
ledger_device_sdk = { version = "=1.42.2", features = ["io_new", "sys"] }
