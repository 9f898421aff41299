[package]
name = "chat_context"
version = "0.1.0"
edition = "2021"
publish = false

[dependencies]
ammonia = "4"
serde = { version = "1", features = ["derive"] }
serde-wasm-bindgen = "0.6"
wasm-bindgen = "0.2"
web-sys = { version = "0.3", features = ["console"] }
