[package]
name = "inventory_core"
version = "0.1.0"
edition = "2021"
publish = false

[dependencies]
jsonwebtoken = "9"
serde_json = "1"
serde = { version = "1", features = ["derive"] }
axum = "0.7"
tokio = { version = "1", features = ["rt-multi-thread", "net", "macros"] }
sqlx = { version = "0.8", features = ["postgres", "runtime-tokio"], default-features = false }
tower-http = { version = "0.6", features = ["cors"] }
