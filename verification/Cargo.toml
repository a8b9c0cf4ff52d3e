[package]
name = "eip1193"
version = "0.1.0"
edition = "2021"
publish = false

[dependencies]
async-trait = "0.1"
gloo-utils = "*"
js-sys = "0.3"
serde = "1"
serde_json = "1"
thiserror = "1"
wasm-bindgen = "0.2"
wasm-bindgen-futures = "0.4"
