[package]
name = "bobby_tabots"
version = "0.1.0"
edition = "2021"
publish = false

[dependencies]
url = "2"
serde = { version = "1", features = ["derive"] }
serde_json = "1"
tokio = { version = "1", features = ["macros", "rt-multi-thread", "process", "time", "sync"] }
tracing = "0.1"
serenity = { version = "0.12", default-features = false, features = ["client", "gateway", "cache", "model", "voice", "rustls_backend"] }
