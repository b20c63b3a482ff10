[package]
name = "disconic"
version = "0.1.0"
edition = "2021"
publish = false

[dependencies]
anyhow = "=1.0.104"
dotenv = "=0.15.0"
env_logger = "0.11"
log = "=0.4.34"
serenity = { version = "=0.12.5", default-features = false, features = ["client", "gateway", "rustls_backend", "model", "cache", "framework", "standard_framework", "utils", "builder"] }
songbird = "=0.4.6"
tokio = { version = "=1.53.2", features = ["macros", "rt-multi-thread", "sync"] }
