[package]
name = "userbot_config"
version = "0.1.0"
edition = "2021"
publish = false

[dependencies]
anyhow = "=1.0.104"
config = "=0.15.27"
grammers-session = { version = "=0.8.0", default-features = false }
serde = { version = "=1.0.229", features = ["derive"] }
