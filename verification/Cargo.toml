[package]
name = "chat_rooms"
version = "0.1.0"
edition = "2021"
publish = false

[dependencies]
async-trait = "0.1"
aws-config = { version = "=1.13.0", default-features = false, features = ["behavior-version-latest", "rt-tokio"] }
aws-sdk-s3 = { version = "=1.155.0", default-features = false, features = ["behavior-version-latest", "rt-tokio"] }
axum = { version = "=0.8.9", features = ["ws", "multipart"] }
chrono = "=0.4.45"
dashmap = "=6.2.1"
dotenvy = "0.15"
futures = "0.3"
futures-util = "=0.3.34"
http-body-util = "0.1"
hyper = { version = "1", features = ["server", "http1"] }
hyper-util = { version = "0.1", features = ["tokio", "server", "server-graceful"] }
pingora = { version = "*", default-features = false, features = ["proxy"] }
rdkafka = "=0.39.0"
scylla = "=1.9.0"
serde = { version = "1", features = ["derive"] }
serde_json = "=1.0.154"
thiserror = "2"
tokio = { version = "=1.54.1", features = ["full"] }
tower = "0.5"
tower-http = { version = "0.6", features = ["cors", "trace", "timeout"] }
tracing = "0.1"
tracing-subscriber = { version = "0.3", features = ["env-filter"] }
uuid = { version = "=1.29.0", features = ["v4", "v7", "serde"] }
