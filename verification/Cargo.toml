[package]
name = "mveng"
version = "0.1.0"
edition = "2021"
publish = false

[dependencies]
axum = { version = "=0.8.9", features = ["multipart"] }
serde = { version = "=1.0.229", features = ["derive"] }
tokio = { version = "=1.54.1", features = ["full"] }
utoipa = { version = "=6.0.0" }
utoipa-swagger-ui = { version = "=10.0.2", features = ["axum", "vendored"] }
