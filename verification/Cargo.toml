[package]
name = "mousai"
version = "0.1.0"
edition = "2021"
publish = false

[dependencies]
uuid = { version = "=1.29.0", features = ["v4"] }
chrono = { version = "=0.4.45", default-features = false, features = ["clock", "std"] }
serde = { version = "=1.0.229", features = ["derive"] }
serde_json = "=1.0.154"
rusqlite = "=0.41.1"
anyhow = "=1.0.104"
tracing = "=0.1.44"
log = "=0.4.35"
pretty_env_logger = "=0.5.0"
once_cell = "=1.21.4"
tokio = { version = "=1.54.1", features = ["rt-multi-thread"] }
gettext-rs = "=0.8.0"

[dev-dependencies]
bincode = "=1.3.3"
