[package]
name = "chat_system"
version = "0.1.0"
edition = "2021"
publish = false

[dependencies]
anyhow = "*"
tokio = { version = "*", features = ["full"] }

[dev-dependencies]
ciborium = "*"
