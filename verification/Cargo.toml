[package]
name = "timetable_view"
version = "0.1.0"
edition = "2021"
publish = false

[dependencies]
comcigan-rs = { version = "=1.2.5", features = ["wasm"] }
log = "=0.4.34"
serde_json = "*"
wasm-bindgen-futures = "=0.4.79"
web-sys = { version = "=0.3.106", features = ["Window", "Storage", "Element", "Node", "EventTarget", "HtmlElement", "HtmlInputElement", "KeyboardEvent", "MouseEvent"] }
yew = "=0.19.3"
