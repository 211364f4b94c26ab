[package]
name = "rmcp-i3"
version = "0.1.0"
edition = "2021"
publish = false

[dependencies]
anyhow = "1"
rmcp = { version = "*", features = ["server", "macros", "transport-io"] }
schemars = "*"
serde = { version = "1", features = ["derive"] }
serde_json = "1"
tokio = { version = "1", features = ["full"] }
tokio-i3ipc = "*"
tracing = "0.1"
tracing-subscriber = { version = "0.3", features = ["env-filter"] }
