[package]
name = "elysium"
version = "0.1.0"
edition = "2021"
publish = false

[dependencies]
iced_native = { version = "0.5", default-features = false }

[dev-dependencies]
crossbeam-utils = "=0.8.23"
