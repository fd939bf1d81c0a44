[package]
name = "ha_simpletray"
version = "0.1.0"
edition = "2021"
publish = false

[dependencies]
anyhow = "1"
derive_builder = "*"
home-assistant-rest = "*"
reqwest = { version = "0.12", default-features = false, features = ["json"] }
serde = { version = "1", features = ["derive"] }
serde_json = "1"
