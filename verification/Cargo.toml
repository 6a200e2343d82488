[package]
name = "kuzzle"
version = "0.1.0"
edition = "2021"
publish = false

[dependencies]
async-std = "1"
async-tungstenite = { version = "*", features = ["async-std-runtime"] }
futures-util = "0.3"
serde_json = "1"
url = "2"
uuid = { version = "1", features = ["v4"] }
