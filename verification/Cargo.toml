[package]
name = "boxing_timer"
version = "0.1.0"
edition = "2021"
publish = false

[dependencies]
lenient_bool = "*"
yew = { version = "*", features = ["csr"] }
gloo = "*"
js-sys = "*"
wasm-bindgen = "*"
wasm-bindgen-futures = "*"
web-sys = { version = "*", features = ["Window", "Location", "Document", "Element", "HtmlAudioElement", "HtmlMediaElement", "Url", "UrlSearchParams"] }
