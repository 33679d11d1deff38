[package]
name = "cc_monitor"
version = "0.1.0"
edition = "2021"
publish = false

[dependencies]
serde_json = "1"
chrono = "0.4"
crossbeam-queue = "0.3"
serde = { version = "1", features = ["derive"] }
tokio = { version = "1", features = ["rt-multi-thread", "time", "sync", "macros"] }
notify-rust = "4"
dirs = "*"
glob = "0.3"
