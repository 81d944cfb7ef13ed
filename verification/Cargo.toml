[package]
name = "frameselect"
version = "0.1.0"
edition = "2021"
publish = false

[dependencies]
anyhow = "*"
axum = { version = "*", features = ["multipart"] }
base64 = "*"
chrono = "*"
dotenv = "*"
ffmpeg-next = "*"
gemini-rust = "*"
image = { version = "*", default-features = false, features = ["jpeg"] }
serde = { version = "*", features = ["derive"] }
serde_json = "*"
tokio = { version = "*", features = ["full"] }
tower-http = { version = "*", features = ["cors", "fs"] }
tracing = "*"
tracing-subscriber = "*"
