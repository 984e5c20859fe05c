[package]
name = "juso_lookup"
version = "0.1.0"
edition = "2021"
publish = false

[dependencies]
serde = { version = "1", features = ["derive"] }
url = "2"
worker = "*"
