[package]
name = "frankclaw"
version = "0.1.0"
edition = "2021"
publish = false

[dependencies]
anyhow = "=1.0.104"
async-trait = "=0.1.92"
axum = { version = "=0.8.9", features = ["ws"] }
base64 = "=0.22.1"
chrono = "=0.4.45"
clap = { version = "=4.6.7", features = ["derive", "env"] }
dashmap = "=6.2.1"
dirs = "=6.0.0"
futures-util = "=0.3.34"
hmac = "=0.12.1"
reqwest = { version = "=0.12.28", default-features = false, features = ["json", "stream", "multipart", "rustls-tls"] }
rusqlite = { version = "=0.41.1", features = ["bundled"] }
rustyline = "=19.0.0"
secrecy = "=0.10.3"
serde = { version = "=1.0.229", features = ["derive"] }
serde_json = "=1.0.154"
sha2 = "=0.10.9"
tokio = { version = "=1.54.1", features = ["full"] }
tokio-stream = "=0.1.19"
tokio-tungstenite = { version = "=0.30.0", features = ["rustls-tls-webpki-roots"] }
tokio-util = "=0.7.20"
toml = "0.8"
tower-http = { version = "=0.6.11", features = ["compression-full", "cors", "trace"] }
tracing = "=0.1.44"
tracing-subscriber = { version = "=0.3.23", features = ["env-filter"] }
url = "=2.5.8"
uuid = { version = "=1.29.0", features = ["v4"] }
