[package]
name = "redis_lock"
version = "0.1.0"
edition = "2021"
publish = false

[dependencies]
redis = { version = "0.27", features = ["tokio-comp"] }
uuid = { version = "1", features = ["v4"] }
rand = "0.8"
tokio = { version = "1", features = ["rt-multi-thread", "time", "sync"] }
tracing = "0.1"
thiserror = "1"
displaydoc = "0.2"
