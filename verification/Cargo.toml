[package]
name = "backend"
version = "0.1.0"
edition = "2021"
publish = false

[dependencies]
base64 = "0.21"
juniper = "0.15"
juniper_warp = "0.7"
pulsar = { version = "*", default-features = false, features = ["tokio-runtime"] }
redis = { version = "0.23", features = ["tokio-comp", "connection-manager"] }
reqwest = "0.11"
serde = { version = "1", features = ["derive"] }
serde_derive = "1"
serde_json = "1"
tokio = { version = "1", features = ["full"] }
urlencoding = "2"
warp = "0.3"
