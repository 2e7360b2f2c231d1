[package]
name = "ferro_core"
version = "0.1.0"
edition = "2021"
publish = false

[dependencies]
sea-query = { version = "=0.32.7", default-features = false, features = ["backend-sqlite"] }
serde_json = "=1.0.154"
dashmap = "=6.2.1"
uuid = { version = "=1.29.0", features = ["v4"] }
serde = { version = "1", features = ["derive"] }
sqlx = { version = "0.8", default-features = false, features = ["runtime-tokio", "any", "sqlite"] }
tokio = { version = "1", features = ["sync", "rt-multi-thread"] }
pyo3 = "0.23"
pyo3-async-runtimes = { version = "0.23", features = ["tokio-runtime"] }
