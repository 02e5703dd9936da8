[package]
name = "mcp_citadel"
version = "0.1.0"
edition = "2021"
publish = false

[dependencies]
serde_json = "=1.0.151"
uuid = { version = "=1.27.0", features = ["v4"] }
tokio = { version = "=1.53.2", features = ["full"] }
axum = { version = "=0.8.9", features = ["ws"] }
futures = "=0.3.34"
tokio-stream = "=0.1.19"
clap = { version = "=4.6.7", features = ["derive"] }
serde = { version = "=1.0.229", features = ["derive"] }
anyhow = "=1.0.104"
dirs = "=7.0.0"
nix = { version = "=0.31.3", features = ["signal"] }
chrono = "=0.4.45"
prometheus = { version = "=0.14.0", default-features = false }
