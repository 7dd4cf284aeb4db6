[package]
name = "opengrok_mcp"
version = "0.1.0"
edition = "2021"
publish = false

[dependencies]
lru = "=0.19.0"
governor = "=0.10.4"
subtle = "=2.6.1"
rustls-pemfile = "=2.2.0"
rustls = "=0.23.46"
rustls-native-certs = "=0.8.5"
reqwest = "=0.13.5"
tokio = { version = "=1.54.1", features = ["full"] }
axum = "=0.8.9"
rmcp = { version = "=3.8.0", features = ["server", "macros", "transport-io", "transport-streamable-http-server"] }
schemars = "=1.2.3"
serde = { version = "=1.0.229", features = ["derive"] }
serde_json = "=1.0.154"
toml = "=1.1.8"
clap = { version = "=4.6.7", features = ["derive"] }
tracing = "=0.1.44"
tracing-subscriber = { version = "=0.3.23", features = ["env-filter"] }
anyhow = "=1.0.104"
async-trait = "=0.1.92"
thiserror = "=2.0.21"
