[package]
name = "codebox_rmcp"
version = "0.1.0"
edition = "2021"
publish = false

[dependencies]
axum = "*"
dotenvy = "*"
reqwest = { version = "*", default-features = false, features = ["json"] }
rmcp = { version = "*", features = ["server", "macros", "transport-streamable-http-server"] }
serde = { version = "*", features = ["derive"] }
serde_json = "*"
tempfile = "*"
tokio = { version = "*", features = ["full"] }
tower-http = { version = "*", features = ["cors"] }
tracing = "*"
tracing-subscriber = { version = "*", features = ["env-filter"] }
