[package]
name = "patternfly"
version = "0.1.0"
edition = "2021"
publish = false

[dependencies]
yew = { version = "*", features = ["csr"] }
web-sys = { version = "*", features = ["Document", "DomRect", "Element", "Event", "EventTarget", "HtmlElement", "MouseEvent", "Window"] }
wasm-bindgen = "*"
gloo-events = "*"
gloo-utils = "*"
log = "*"
