[package]
name = "nu_plugin_from_beancount"
version = "0.1.0"
edition = "2021"
publish = false

[dependencies]
beancount-parser = { version = "=1.16.3", features = ["rust_decimal"] }
chrono = "=0.4.45"
nu-plugin = "=0.84.0"
nu-protocol = "=0.84.0"
rust_decimal = { version = "=1.43.0", default-features = false }
