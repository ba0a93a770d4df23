[package]
name = "bong"
version = "0.1.0"
edition = "2021"
publish = false

[dependencies]
carrier-pigeon = "*"
serde = { version = "1", features = ["derive"] }
