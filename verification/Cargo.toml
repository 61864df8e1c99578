[package]
name = "rust_tac_toe"
version = "0.1.0"
edition = "2021"
publish = false

[dependencies]
console_error_panic_hook = "=0.1.7"
eframe = { version = "0.27", default-features = false, features = ["glow"] }
serde = { version = "=1.0.229", features = ["derive"] }
serde-wasm-bindgen = "=0.6.5"
wasm-bindgen = "=0.2.129"
wasm-bindgen-futures = "=0.4.79"
wee_alloc = "=0.4.5"

[dev-dependencies]
serde_json = "=1.0.154"
