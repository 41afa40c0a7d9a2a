[package]
name = "whisperflow"
version = "0.1.0"
edition = "2021"
publish = false

[dependencies]
bollard = "*"
env_logger = "*"
futures-util = "*"
log = "*"
reqwest = { version = "*", default-features = false, features = ["json", "multipart"] }
serde = { version = "*", features = ["derive"] }
serde_json = "*"
tokio = { version = "*", features = ["rt-multi-thread", "macros", "time", "fs"] }
