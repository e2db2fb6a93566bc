[package]
name = "tsc_runtime"
version = "0.1.0"
edition = "2021"
publish = false

[dependencies]
crepuscularity-core = "*"
crepuscularity-native = "*"
crepuscularity-web = "*"
js-sys = "*"
serde_json = "*"
wasm-bindgen = "*"
web-sys = { version = "*", features = ["Window", "Document", "Element", "Event", "EventTarget", "MouseEvent", "Node", "HtmlHeadElement", "Navigator", "Clipboard"] }
