[package]
name = "character_control"
version = "0.1.0"
edition = "2021"
publish = false

[dependencies]
ambient_api = { version = "=0.3.1", features = ["client", "server"] }
num = "=0.4.3"
