[package]
name = "webserver"
version = "0.1.0"
edition = "2021"
publish = false

[dependencies]
galvyn = { version = "=0.7.0", default-features = false, features = ["rorm", "rorm-postgres-only", "rorm-uuid", "rorm-time", "sessions", "openapi"] }
uuid = { version = "=1.29.1", features = ["v4", "serde"] }
time = "=0.3.55"
url = "2"
serde = { version = "1", features = ["derive"] }
thiserror = "2"
anyhow = "1"
tokio = { version = "1", features = ["full"] }
tracing = "0.1"

[dev-dependencies]
regex = "=1.13.1"
