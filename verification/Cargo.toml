[package]
name = "dns_monitor"
version = "0.1.0"
edition = "2021"
publish = false

[dependencies]
anyhow = "1"
axum = "0.8"
clap = { version = "4", features = ["derive", "env"] }
hickory-proto = "*"
reqwest = { version = "0.13", features = ["query"] }
rustls = "0.23"
rustls-platform-verifier = "0.6"
tokio = { version = "1", features = ["full"] }
tokio-rustls = "0.26"
tokio-util = { version = "0.7", features = ["rt"] }
tracing = "0.1"
tracing-subscriber = "0.3"
x509-parser = "0.18"
