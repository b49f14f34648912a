[package]
name = "sparsha"
version = "0.1.0"
edition = "2021"
publish = false

[dependencies]
serde_json = "=1.0.154"
dioxus-devtools-types = "=0.7.10"
dioxus-cli-config = "=0.7.10"
subsecond = "=0.7.10"
taffy = "=0.15.1"
log = "=0.4.35"
wasm-bindgen = "=0.2.130"
web-sys = { version = "=0.3.107", features = ["Document", "Element", "HtmlElement", "HtmlButtonElement", "HtmlInputElement", "HtmlTextAreaElement", "EventTarget", "CssStyleDeclaration", "Node", "Window"] }
