[package]
name = "ws_stream_wasm"
version = "0.1.0"
edition = "2021"
publish = false

[dependencies]
futures = "0.3"
js-sys = "0.3"
send_wrapper = "0.6"
thiserror = "1"
wasm-bindgen = "0.2"
wasm-bindgen-futures = "0.4"
web-sys = { version = "0.3", features = ["BinaryType", "Blob", "CloseEvent", "DomException", "MessageEvent", "WebSocket"] }
