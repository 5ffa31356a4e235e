[package]
name = "image_upload"
version = "0.1.0"
edition = "2021"
publish = false

[dependencies]
axum = { version = "0.6", features = ["multipart"] }
base64 = "0.21"
dotenv = "0.15"
reqwest = "0.11"
sailfish = "0.8"
tokio = { version = "1", features = ["macros", "rt-multi-thread"] }
tower-http = { version = "0.4", features = ["cors", "fs", "limit"] }
tracing = "0.1"
tracing-subscriber = "0.3"
