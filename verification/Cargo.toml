[package]
name = "vim_mcp"
version = "0.1.0"
edition = "2021"
publish = false

[dependencies]
rmcp = { version = "=1.8.0", features = ["server", "transport-io"] }
serde = { version = "=1.0.229", features = ["derive"] }
serde_json = "=1.0.154"
tokio = { version = "=1.54.1", features = ["full"] }
