[package]
name = "waku"
version = "0.1.0"
edition = "2021"
publish = false

[dependencies]
anyhow = "1"
base64 = "0.22"
crossbeam-channel = "0.5"
futures = "0.3"
serde_json = "1"
smol = "2"
url = "2"
uuid = { version = "1", features = ["v4"] }
wasm-bindgen = "0.2"
web-sys = { version = "0.3", features = ["CloseEvent", "Event", "Location", "MessageEvent", "WebSocket", "Window"] }
