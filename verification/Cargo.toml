[package]
name = "meso"
version = "0.1.0"
edition = "2021"
publish = false

[dependencies]
gloo-net = "0.6"
serde = { version = "1", features = ["derive"] }
serde_json = "1"
wasm-bindgen = "0.2"
wasm-bindgen-futures = "0.4"
web-sys = { version = "0.3", features = ["console"] }
yew = { version = "*", features = ["csr"] }
