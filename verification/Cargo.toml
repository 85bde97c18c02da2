[package]
name = "monitor_controller"
version = "0.1.0"
edition = "2021"
publish = false

[dependencies]
serde = { version = "=1.0.229", features = ["derive"] }
serde_json = "=1.0.154"
rosc = "=0.10.1"
anyhow = "=1.0.104"
log = "=0.4.35"
chrono = "=0.4.45"
dirs = "=5.0.1"
tokio = { version = "=1.54.1", features = ["rt-multi-thread", "net", "sync", "time", "macros"] }
axum = { version = "=0.7.9", features = ["ws"] }
futures = "=0.3.34"
local-ip-address = "=0.6.13"
zeromq = "0.4"
bincode = "1"
