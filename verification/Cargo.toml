[package]
name = "apm_client"
version = "0.1.0"
edition = "2021"
publish = false

[dependencies]
anyhow = "*"
base64 = "*"
reqwest = { version = "*", default-features = false, features = ["rustls-tls"] }
serde_json = "*"
tokio = { version = "*", features = ["rt-multi-thread", "time"] }
tracing = "*"
