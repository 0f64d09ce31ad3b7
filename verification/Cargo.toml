[package]
name = "wash_lib"
version = "0.1.0"
edition = "2021"
publish = false

[dependencies]
anyhow = "=1.0.104"
async-nats = "=0.33.0"
clap = { version = "=4.6.7", default-features = false, features = ["derive", "std"] }
serde_json = "=1.0.154"
tokio = { version = "=1.54.1", features = ["time"] }
wadm = { version = "=0.10.0", default-features = false }
