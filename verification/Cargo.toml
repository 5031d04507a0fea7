[package]
name = "model_gateway"
version = "0.1.0"
edition = "2021"
publish = false

[dependencies]
rand = "=0.9.5"
flate2 = "=1.1.10"
serde = { version = "=1.0.229", features = ["derive"] }
serde_json = "=1.0.154"
tokio = { version = "=1.54.1", features = ["full"] }
axum = "=0.8.9"
axum-server = { version = "=0.7.3", features = ["tls-rustls"] }
async-openai = { version = "=0.42.2", features = ["chat-completion-types"] }
async-trait = "=0.1.92"
futures-util = "=0.3.34"
http-body-util = "=0.1.5"
hyper-util = { version = "=0.1.21", features = ["client-legacy", "http1", "tokio"] }
tracing = "=0.1.44"
