[package]
name = "rmcp-proxy"
version = "0.1.0"
edition = "2021"
publish = false

[dependencies]
axum = "0.8"
bytes = "1"
clap = { version = "4", features = ["derive", "env"] }
dirs = "6"
eventsource-stream = "0.2"
futures = "0.3"
libc = "0.2"
log = "0.4"
reqwest = { version = "0.12", default-features = false, features = ["json", "stream", "rustls-tls"] }
rmcp = { version = "0.8", features = ["client", "server", "transport-async-rw", "transport-io", "transport-child-process", "transport-sse-server", "transport-streamable-http-client", "transport-streamable-http-client-reqwest", "transport-streamable-http-server"] }
serde = { version = "1", features = ["derive"] }
serde_json = "1"
sse-stream = "0.2"
thiserror = "2"
tokio = { version = "1", features = ["full"] }
tokio-util = { version = "0.7", features = ["io"] }
tracing = "0.1"
tracing-subscriber = { version = "0.3", features = ["env-filter"] }
url = "2"
uuid = { version = "1", features = ["v4"] }
