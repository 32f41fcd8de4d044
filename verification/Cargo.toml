[package]
name = "fbi-proxy"
version = "0.1.1"
edition = "2021"
publish = false

[dependencies]
clap = { version = "4", features = ["env"] }
env_logger = "0.10"
futures-util = "0.3"
hyper = { version = "0.14", features = ["full"] }
hyper-tungstenite = "0.11"
log = "0.4"
regex = "1"
tokio = { version = "1", features = ["full"] }
tokio-tungstenite = "0.20"
