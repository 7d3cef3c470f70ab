[package]
name = "chunk_worker"
version = "0.1.0"
edition = "2021"
publish = false

[dependencies]
tokio = { version = "*", features = ["rt-multi-thread", "macros", "time"] }
bb8-redis = "*"
clickhouse = "*"
chm = "*"
dotenvy = "*"
env_logger = "*"
log = "*"
signal-hook = "*"
serde = { version = "*", features = ["derive"] }
serde_json = "*"
