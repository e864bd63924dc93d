[package]
name = "dockyard"
version = "0.1.0"
edition = "2021"
publish = false

[dependencies]
anyhow = "1"
base64 = "0.13"
bollard = "0.8"
chrono = "0.4"
clap = "2"
cron = "0.12"
flate2 = "1"
futures = "0.3"
futures-core = "0.3"
lazy_static = "1"
log = "0.4"
serde = { version = "1", features = ["derive"] }
serde_json = "1"
simple_logger = "1"
tar = "0.4"
tempfile = "3"
tokio = { version = "0.2", features = ["full"] }
uuid = { version = "0.8", features = ["v4"] }
