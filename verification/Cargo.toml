[package]
name = "file_uploader"
version = "0.1.0"
edition = "2021"
publish = false

[dependencies]
flate2 = "1"
anyhow = "1"
axum = { version = "0.7", features = ["multipart"] }
clap = { version = "4", features = ["derive"] }
dotenvy = "0.15"
sqlx = { version = "0.8", features = ["runtime-tokio", "postgres", "macros"] }
tokio = { version = "1", features = ["full"] }
tracing = "0.1"
