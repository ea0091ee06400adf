[package]
name = "q_bot"
version = "0.1.0"
edition = "2021"
publish = false

[dependencies]
anyhow = "1"
askama = "0.12"
askama_axum = "0.3"
axum = { version = "0.6", features = ["multipart"] }
axum-extra = { version = "0.8", features = ["cookie"] }
axum-server = { version = "0.5", features = ["tls-rustls"] }
base64 = "0.21"
chrono = "0.4"
clap = { version = "4", features = ["derive"] }
comrak = { version = "0.21", default-features = false, features = ["syntect"] }
dashmap = "5"
derive_more = "0.99"
futures = "0.3"
llm-sdk = "*"
schemars = "0.8"
serde = { version = "1", features = ["derive"] }
serde_json = "1"
strum = { version = "0.25", features = ["derive"] }
tokio = { version = "1", features = ["rt", "rt-multi-thread", "macros", "fs", "sync"] }
tokio-stream = { version = "0.1", features = ["sync"] }
tower-http = { version = "0.4", features = ["fs"] }
tracing = "0.1"
tracing-subscriber = "0.3"
uuid = { version = "1", features = ["v4"] }
