[package]
name = "pop3"
version = "0.1.0"
edition = "2021"
publish = false

[dependencies]
ahash = "0.8"
deadpool = { version = "*", features = ["managed", "rt_tokio_1"] }
mail-send = "*"
