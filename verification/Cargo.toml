[package]
name = "mcp_server_core"
version = "0.1.0"
edition = "2021"
publish = false

[dependencies]
apollo-compiler = "*"
regex = "*"
url = "*"
http = "*"
serde = { version = "*", features = ["derive"] }
serde_json = "*"
tokio = { version = "*", features = ["full"] }
axum = "*"
tower-http = { version = "*", features = ["cors"] }
reqwest = { version = "*", default-features = false, features = ["json", "rustls-tls"] }
