[package]
name = "ragu"
version = "0.1.0"
edition = "2021"
publish = false

[dependencies]
anyhow = "=1.0.104"
clap = { version = "=4.6.7", features = ["derive"] }
csv = "=1.4.0"
dotenvy = "=0.15.7"
pgvector = { version = "=0.4.2", features = ["sqlx"] }
reqwest = { version = "=0.12.28", default-features = false, features = ["json", "rustls-tls"] }
serde = { version = "=1.0.229", features = ["derive"] }
serde_json = "=1.0.151"
sqlx = { version = "=0.9.0", features = ["runtime-tokio", "tls-rustls", "postgres"] }
tokio = { version = "=1.53.2", features = ["macros", "rt-multi-thread"] }
tracing = "=0.1.44"
tracing-subscriber = "=0.3.23"
