[package]
name = "clickhouse_component"
version = "0.1.0"
edition = "2021"
publish = false

[dependencies]
base64 = "0.22"
serde = { version = "1", features = ["derive"] }
serde_json = "1"

[dev-dependencies]
uuid = { version = "1", features = ["v4"] }
