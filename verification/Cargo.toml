[package]
name = "acp_engine"
version = "0.1.0"
edition = "2021"
publish = false

[dependencies]
serde_json = "1"
shell-words = "1"
uuid = { version = "1", features = ["v4"] }
tokio = { version = "1", features = ["io-util", "macros", "process", "rt-multi-thread", "sync", "time"] }
chrono = { version = "0.4", default-features = false, features = ["clock"] }
