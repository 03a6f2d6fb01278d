[package]
name = "device_checkout"
version = "0.1.0"
edition = "2021"
publish = false

[dependencies]
chrono = "0.4"
rand = "*"
validator = "*"
serde = { version = "1", features = ["derive"] }
serde_json = "1"
