[package]
name = "gamma"
version = "0.1.0"
edition = "2021"
publish = false

[dependencies]
rust_decimal = { version = "=1.43.0", default-features = false, features = ["maths"] }
anchor-lang = "=1.2.1"
anchor-spl = { version = "=1.2.1", features = ["memo"] }
bincode = "=1.3.3"
serde = { version = "=1.0.229", features = ["derive"] }
serde-wasm-bindgen = "=0.6.5"
wasm-bindgen = "=0.2.129"
web-time = "=1.1.0"
