[package]
name = "miner_supervisor"
version = "0.1.0"
edition = "2021"
publish = false

[dependencies]
serde_json = "*"
tokio = { version = "*", features = ["rt-multi-thread", "process", "io-util", "time", "sync", "macros", "net"] }
tokio-tungstenite = "*"
futures-util = "*"
nix = { version = "*", features = ["signal"] }
dirs = "*"
