[package]
name = "agent-workspace-linux"
version = "0.1.0"
edition = "2021"
publish = false

[dependencies]
anyhow = "1"
serde = { version = "1", features = ["derive"] }
serde_json = "1"
schemars = "1"
tokio = { version = "1", features = ["macros", "rt", "io-std"] }
rmcp = { version = "*", features = ["server", "macros", "transport-io"] }
