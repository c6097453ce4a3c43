[package]
name = "forum"
version = "0.1.0"
edition = "2021"
publish = false

[dependencies]
base64 = "0.22"
aho-corasick = "1"
regex = "1"
serde = { version = "1", features = ["derive"] }
serde_json = "1"
chrono = { version = "0.4", default-features = false, features = ["clock", "std"] }
sqlx = { version = "0.8", default-features = false, features = ["postgres", "runtime-tokio", "chrono", "json", "uuid"] }
tokio = { version = "1", features = ["rt", "sync", "macros"] }
axum = "0.8"
redis = { version = "0.27", default-features = false, features = ["tokio-comp"] }
deadpool-redis = "0.18"
meilisearch-sdk = "0.27"
arc-swap = "1"
once_cell = "1"
tokio-stream = { version = "0.1", features = ["sync"] }
uuid = "1"
tracing = "0.1"
anyhow = "1"
