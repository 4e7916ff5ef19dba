[package]
name = "arrow_accessor"
version = "0.1.0"
edition = "2021"
publish = false

[dependencies]
chrono = "*"
arrow = "*"
js-sys = "*"
wasm-bindgen = "*"
