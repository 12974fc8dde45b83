[package]
name = "compression_jobs"
version = "0.1.0"
edition = "2021"
publish = false

[dependencies]
flate2 = "*"
axum = { version = "*", features = ["multipart"] }
tokio = { version = "*", features = ["full"] }
tower-http = { version = "*", features = ["fs"] }
serde = { version = "*", features = ["derive"] }
serde_json = "*"
chrono = "*"
dotenvy = "*"
futures = "*"
