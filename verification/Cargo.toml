[package]
name = "roomcast"
version = "0.1.0"
edition = "2021"
publish = false

[dependencies]
uuid = { version = "=1.29.0", features = ["v4", "serde"] }
sha2 = "=0.10.9"
hmac = "=0.12.1"
base64 = "=0.22.1"
axum = { version = "=0.8.9", features = ["ws", "macros"] }
tokio = { version = "=1.54.1", features = ["rt-multi-thread", "macros", "sync"] }
bb8 = "=0.9.1"
bb8-redis = "=0.26.0"
redis = { version = "=1.8.1", features = ["tokio-comp"] }
sea-orm = { version = "=1.1.20", default-features = false, features = ["macros", "with-chrono", "with-uuid", "with-json"] }
sea-orm-migration = { version = "=1.1.20", default-features = false }
serde = { version = "=1.0.229", features = ["derive"] }
serde_json = "=1.0.154"
tracing = "=0.1.44"
thiserror = "=2.0.21"
dashmap = "=6.2.1"
futures-util = { version = "=0.3.34", features = ["sink"] }
chrono = { version = "=0.4.45", features = ["serde"] }
async-trait = "=0.1.92"
aws-sdk-s3 = { version = "=1.157.0", default-features = false }
