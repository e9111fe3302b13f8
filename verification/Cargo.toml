[package]
name = "ezsockets"
version = "0.6.1"
edition = "2021"
publish = false

[dependencies]
async-channel = "2"
async-trait = "0.1"
base64 = "0.22"
enfync = "0.1"
futures = "0.3"
http = "1"
tokio = { version = "1", features = ["rt", "rt-multi-thread", "net", "sync", "macros", "time"] }
tokio-tungstenite = "0.24"
tokio-tungstenite-wasm = "0.3"
tracing = "0.1"
url = "2"
