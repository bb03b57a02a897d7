[package]
name = "webclient"
version = "0.1.0"
edition = "2021"
publish = false

[dependencies]
anyhow = "1"
async-trait = "0.1"
crossbeam = "0.8"
ctrlc = "3"
dashmap = "5"
futures = "0.3"
futures-channel = "0.3"
futures-util = "0.3"
http = "1"
serde = { version = "1", features = ["derive"] }
thiserror = "1"
time = { version = "0.3", features = ["macros"] }
tokio = { version = "1", features = ["full"] }
tokio-tungstenite = "0.21"
tracing = "0.1"
tracing-appender = "0.2"
tracing-subscriber = { version = "0.3", features = ["fmt", "time", "local-time"] }
uuid = { version = "1", features = ["v4"] }
webproto = "*"
