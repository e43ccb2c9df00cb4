[package]
name = "url_bookmarks"
version = "0.1.0"
edition = "2021"
publish = false

[dependencies]
fancy-regex = "*"
linkify = "*"
select = "*"
url = "2"
thiserror = "1"
lazy_static = "1"
js-sys = "0.3"
wasm-bindgen = "0.2"
wasm-bindgen-futures = "0.4"
web-sys = { version = "0.3", features = ["Window", "Navigator", "Clipboard", "console"] }
