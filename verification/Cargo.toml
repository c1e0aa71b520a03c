[package]
name = "mathsvg"
version = "0.1.0"
edition = "2021"
publish = false

[dependencies]
typst = "0.13"
typst-library = "0.13"
typst-svg = "0.13"
typst-assets = { version = "0.13", features = ["fonts"] }
wasm-bindgen = "0.2"
console_error_panic_hook = "0.1"
