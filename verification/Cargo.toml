[package]
name = "portfolio"
version = "0.1.0"
edition = "2021"
publish = false

[dependencies]
eframe = { version = "=0.22.0", default-features = false, features = ["glow"] }
log = "=0.4.34"
wasm-bindgen-futures = "=0.4.79"
