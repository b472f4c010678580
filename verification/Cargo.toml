[package]
name = "proxy_response"
version = "0.1.0"
edition = "2021"
publish = false

[dependencies]
async-stream = "0.3"
axum = { version = "0.7", default-features = false }
brotli = "7"
bytes = "1"
dirs = "5"
flate2 = "1"
futures = "0.3"
indexmap = "2"
log = "0.4"
reqwest = { version = "0.12", default-features = false, features = ["stream"] }
serde = "1"
serde_json = "1"
tokio = { version = "1", features = ["rt", "time"] }
