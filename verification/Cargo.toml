[package]
name = "signal_relay"
version = "0.1.0"
edition = "2021"
publish = false

[dependencies]
async-channel = "*"
async-tungstenite = { version = "*", features = ["tokio-runtime"] }
datachannel = "*"
futures-util = "*"
serde = { version = "*", features = ["derive"] }
serde_json = "*"
tokio = { version = "*", features = ["macros", "net", "rt-multi-thread", "time"] }
uuid = { version = "*", features = ["serde", "v4"] }
