[package]
name = "voice_bot"
version = "0.1.0"
edition = "2021"
publish = false

[dependencies]
serenity = { version = "0.11", default-features = false, features = ["builder", "cache", "client", "gateway", "http", "model", "utils", "rustls_backend", "voice"] }
songbird = { version = "0.3" }
tokio = { version = "1", features = ["macros", "rt-multi-thread"] }
dotenv = { version = "0.15" }
tracing-subscriber = { version = "0.3" }
