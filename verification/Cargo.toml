[package]
name = "virulenbot"
version = "0.1.0"
edition = "2021"
publish = false

[dependencies]
anyhow = "=1.0.104"
dotenv = "=0.15.0"
env_logger = "=0.11.11"
log = "=0.4.34"
reqwest = { version = "=0.12.28", default-features = false, features = ["blocking", "json", "rustls-tls"] }
serde = { version = "=1.0.229", features = ["derive"] }
serde_json = "=1.0.151"
takecell = "=0.1.1"
teloxide = { version = "=0.17.0", features = ["macros", "webhooks-axum"] }
tokio = { version = "=1.53.2", features = ["macros", "rt-multi-thread"] }
