[package]
name = "robinhood"
version = "0.1.0"
edition = "2021"
publish = false

[dependencies]
reqwest = { version = "0.12", default-features = false, features = ["json"] }
serde_json = "1"
thiserror = "1"
tokio = { version = "1", features = ["time"] }
uuid = { version = "1", features = ["v4"] }
