[package]
name = "debot_engine"
version = "0.1.0"
edition = "2021"
publish = false

[dependencies]
base64 = "*"
chrono = "*"
hex = "*"
serde_json = "*"
