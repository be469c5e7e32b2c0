[package]
name = "demoflat"
version = "0.1.0"
edition = "2021"
publish = false

[dependencies]
tf-demo-parser = "*"
wasm-bindgen = "*"
js-sys = "*"
