[package]
name = "viewarr"
version = "0.1.0"
edition = "2021"
publish = false

[dependencies]
egui = "0.32"
eframe = { version = "0.32", default-features = false, features = ["glow", "default_fonts"] }
egui-phosphor = "0.10"
js-sys = "0.3"
wasm-bindgen = "0.2"
wasm-bindgen-futures = "0.4"
web-sys = { version = "0.3", features = ["HtmlCanvasElement"] }
log = "0.4"
