[package]
name = "n8n_mcp"
version = "0.1.0"
edition = "2021"
publish = false

[dependencies]
axum = "0.8"
reqwest = { version = "0.12", features = ["json"] }
rmcp = "0.1"
serde = { version = "1", features = ["derive"] }
serde_json = "1"
