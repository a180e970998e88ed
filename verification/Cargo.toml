[package]
name = "latency_handshake"
version = "0.1.0"
edition = "2021"
publish = false

[dependencies]
web-time = "1"
thiserror = "1"
anyhow = "1"
axum = { version = "0.6", features = ["ws"] }
tokio = { version = "1", features = ["macros", "rt-multi-thread", "sync"] }
tokio-util = { version = "0.7", features = ["io"] }
tracing = "0.1"
tracing-subscriber = "0.3"
wasm-bindgen = "0.2"
js-sys = "0.3"
web-sys = { version = "0.3", features = ["WebSocket", "BinaryType", "ErrorEvent", "MessageEvent"] }
