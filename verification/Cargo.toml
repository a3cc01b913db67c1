[package]
name = "clientworks"
version = "0.1.0"
edition = "2021"
publish = false

[dependencies]
uuid = { version = "1", features = ["v3", "v4", "serde"] }
tokio = { version = "1", features = ["rt", "rt-multi-thread", "macros", "time", "sync"] }
serde = { version = "1", features = ["derive"] }
serde_json = "1"
log = "0.4"
env_logger = { version = "0.11", default-features = false }
dirs = "6"
lazy_static = "1"
anyhow = "1"
parking_lot = "0.12"
reqwest = { version = "0.12", default-features = false }
azalea = "0.13"
azalea-auth = "0.13"
azalea-chat = "0.13"
