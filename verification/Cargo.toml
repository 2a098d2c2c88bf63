[package]
name = "poise_commands"
version = "0.1.0"
edition = "2021"
publish = false

[dependencies]
arc-swap = "1"
regex = "1"
serenity = { version = "0.12", default-features = false, features = ["builder", "cache", "client", "gateway", "http", "model", "rustls_backend", "unstable_discord_api"] }
tokio = { version = "1", features = ["sync"] }
tracing = "0.1"

[dev-dependencies]
serde_json = "1"
