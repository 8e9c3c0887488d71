[package]
name = "fluxy"
version = "0.1.0"
edition = "2021"
publish = false

[dependencies]
dirs = "5"
hostname = "0.4"
os_info = "3"
serde = { version = "1", features = ["derive"] }
serde_json = "1"
thiserror = "1"
time = { version = "0.3", features = ["macros", "formatting", "local-offset"] }
tokio = { version = "1", features = ["net", "io-util", "sync", "time", "rt", "macros", "fs"] }
tokio-util = "0.7"
tracing = "0.1"
tracing-subscriber = { version = "0.3", features = ["env-filter", "json", "local-time"] }
uuid = { version = "1", features = ["v4"] }
