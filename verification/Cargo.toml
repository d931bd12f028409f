[package]
name = "samba"
version = "0.1.0"
edition = "2021"
publish = false

[dependencies]
async-nats = "0.38"
async-trait = "0.1"
futures = "0.3"
prometheus = { version = "0.14", default-features = false }
rand = "0.9"
serde = { version = "1", features = ["derive"] }
serde_json = "1"
serde_yaml_ng = "0.10"
thiserror = "2"
tokio = { version = "1", features = ["macros", "rt-multi-thread", "signal", "sync", "time"] }
tracing = "0.1"
