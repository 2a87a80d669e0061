[package]
name = "sidecar_supervisor"
version = "0.1.0"
edition = "2021"
publish = false

[dependencies]
semver = "1"
tokio = { version = "1", features = ["full"] }
process-wrap = { version = "*", features = ["tokio1"] }
futures = "0.3"
serde = { version = "1", features = ["derive"] }
serde_json = "1"
