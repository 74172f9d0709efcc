[package]
name = "flowy_error"
version = "0.1.0"
edition = "2021"
publish = false

[dependencies]
anyhow = "=1.0.104"
fancy-regex = "=0.19.2"
protobuf = "=2.28.0"
thiserror = "=1.0.69"
tokio = { version = "=1.53.2", features = ["rt", "sync"] }
uuid = "=1.27.0"
validator = "=0.21.0"

[dev-dependencies]
serde_json = "=1.0.151"
