[package]
name = "reust"
version = "0.1.0"
edition = "2021"
publish = false

[dependencies]
proc-macro2 = { version = "=1.0.107", features = ["span-locations"] }
syn = { version = "=2.0.119", features = ["full"] }
console_error_panic_hook = "0.1"
js-sys = "0.3"
wasm-bindgen = "0.2"
web-sys = { version = "0.3", features = ["Window", "Document", "Element", "Node", "Text", "Event", "EventTarget", "console"] }
