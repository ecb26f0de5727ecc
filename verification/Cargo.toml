[package]
name = "match_server"
version = "0.1.0"
edition = "2021"
publish = false

[dependencies]
tokio = { version = "=1.54.1", features = ["full"] }
reqwest = { version = "=0.13.5", default-features = false, features = ["json"] }
serde = { version = "=1.0.229", features = ["derive"] }
serde_cbor = "=0.11.2"
serde_json = "=1.0.154"
mlua = { version = "=0.12.2", features = ["lua54", "vendored", "serialize", "send"] }
config = "=0.15.27"
chrono = "=0.4.45"
thiserror = "=2.0.21"
uuid = { version = "=1.29.0", features = ["serde"] }
