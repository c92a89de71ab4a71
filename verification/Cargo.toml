[package]
name = "header_store"
version = "0.1.0"
edition = "2021"
publish = false

[dependencies]
hex = "0.4"
futures = "0.3"
js-sys = "0.3"
wasm-bindgen = "0.2"
send_wrapper = "0.6"
web-sys = { version = "0.3", features = ["Window", "IdbFactory", "IdbDatabase", "IdbOpenDbRequest", "IdbRequest", "IdbTransaction", "IdbTransactionMode", "IdbObjectStore", "IdbVersionChangeEvent", "DomException", "Event", "EventTarget"] }
