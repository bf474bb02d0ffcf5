[package]
name = "wasm_socket_handle"
version = "0.1.0"
edition = "2021"
publish = false

[dependencies]
tokio = { version = "=1.54.1", features = ["sync"] }
futures = "=0.3.34"
thiserror = "=2.0.21"
tracing = "=0.1.44"
wasm-bindgen = "0.2"
wasm-bindgen-futures = "0.4"
js-sys = "0.3"
web-sys = { version = "0.3", features = ["BinaryType", "CloseEvent", "ErrorEvent", "MessageEvent", "WebSocket", "console"] }
