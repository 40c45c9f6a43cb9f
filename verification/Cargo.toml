[package]
name = "call_router"
version = "0.1.0"
edition = "2021"
publish = false

[dependencies]
chrono = "0.4"
futures-util = "0.3"
js-sys = "0.3"
log = "0.4"
petgraph = "0.6"
proc-macro2 = "1"
quote = "1"
serde = { version = "1", features = ["derive"] }
serde-wasm-bindgen = "0.6"
serde_json = "1"
tokio = { version = "1", features = ["macros", "net", "rt-multi-thread", "sync"] }
tokio-tungstenite = "0.21"
wasm-bindgen = "0.2"
