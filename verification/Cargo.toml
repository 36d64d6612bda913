[package]
name = "sqllib"
version = "0.1.0"
edition = "2021"
publish = false

[dependencies]
dbsp = { version = "<0.28.0", default-features = false }
rust_decimal = "*"
