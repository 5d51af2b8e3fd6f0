[package]
name = "sentinel"
version = "0.1.0"
edition = "2021"
publish = false

[dependencies]
kv = "*"
axum = { version = "0.5", features = ["headers"] }
jsonwebtoken = "8"
once_cell = "1"
r2d2 = "0.8"
r2d2_sqlite = "*"
serde = { version = "1", features = ["derive"] }
serde_json = "1"
tokio = { version = "1", features = ["full"] }
tower = { version = "0.4", features = ["util", "timeout", "load-shed", "limit"] }
tower-http = { version = "0.3", features = ["cors", "trace", "compression-gzip"] }
tracing-subscriber = { version = "0.3", features = ["env-filter"] }

[dev-dependencies]
tempfile = "3"
