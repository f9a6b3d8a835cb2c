[package]
name = "hes_inputs"
version = "0.1.0"
edition = "2021"
publish = false

[dependencies]
base64 = "0.22"
js-sys = "0.3"
leptos = { version = "0.6", features = ["csr"] }
leptos-use = "0.13"
num = "0.4"
strum = { version = "0.26", features = ["derive"] }
wasm-bindgen = "0.2"
wasm-bindgen-futures = "0.4"
web-sys = { version = "0.3", features = ["Blob", "File", "FileList", "HtmlInputElement"] }
