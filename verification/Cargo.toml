[package]
name = "gyazo_client"
version = "0.1.0"
edition = "2021"
publish = false

[dependencies]
reqwest = { version = "=0.12.28", features = ["json", "multipart"] }
serde_json = "=1.0.154"
thiserror = "=1.0.69"

[dev-dependencies]
futures-util = "=0.3.34"
