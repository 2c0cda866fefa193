[package]
name = "pipeup"
version = "0.2.0"
edition = "2021"
publish = false

[dependencies]
anyhow = "=1.0.104"
clap = { version = "=4.6.7", features = ["derive", "env"] }
futures-util = "=0.3.34"
serde = { version = "=1.0.229", features = ["derive"] }
serde_json = "=1.0.151"
tokio = { version = "=1.53.2", features = ["rt-multi-thread", "macros", "io-std", "io-util", "time", "net"] }
tokio-tungstenite = "=0.30.0"
tracing = "*"
tracing-subscriber = "*"
urlencoding = "=2.1.3"
uuid = { version = "=1.27.0", features = ["v4"] }
