[package]
name = "wand"
version = "0.1.0"
edition = "2021"
publish = false

[dependencies]
wasm-bindgen = "0.2"
web-sys = { version = "0.3", features = ["Window", "Performance", "Document", "Element", "HtmlCanvasElement", "CanvasRenderingContext2d", "TextMetrics", "console"] }
console_error_panic_hook = "0.1"
dragon = "*"
