[package]
name = "whitenoise"
version = "0.1.0"
edition = "2021"
publish = false

[dependencies]
anyhow = "=1.0.104"
async-trait = "=0.1.92"
base64ct = "=1.8.3"
chrono = { version = "=0.4.45", features = ["serde"] }
nostr-sdk = { version = "=0.44.1", features = ["nip44", "nip59"] }
serde = { version = "=1.0.229", features = ["derive"] }
serde_json = "=1.0.154"
sqlx = { version = "=0.9.0", default-features = false, features = ["runtime-tokio", "sqlite"] }
thiserror = "=2.0.21"
tokio = { version = "=1.54.1", features = ["macros", "rt", "sync", "time"] }
tracing = "=0.1.44"
