[package]
name = "babelfont_fontc_web"
version = "0.1.0"
edition = "2021"
publish = false

[dependencies]
babelfont = "=0.2.4"
fontdrasil = "=1.0.0"
write-fonts = { version = "=0.52.0", features = ["read"] }
serde_json = "=1.0.154"
wasm-bindgen = "=0.2.129"
js-sys = "=0.3.106"
console_error_panic_hook = "=0.1.7"
