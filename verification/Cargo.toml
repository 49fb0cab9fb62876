[package]
name = "svg_frame"
version = "0.1.0"
edition = "2021"
publish = false

[dependencies]
vello_svg = { version = "=0.11.0", features = ["wgpu"] }
log = "=0.4.34"
reqwest = { version = "=0.13.5", default-features = false }
stylist = { version = "=0.15.1", features = ["yew_integration"] }
wasm-bindgen = "=0.2.129"
wasm-bindgen-futures = "=0.4.79"
web-sys = { version = "=0.3.106", features = ["Window", "Document", "Element", "HtmlElement", "HtmlCanvasElement", "Node"] }
winit = { version = "=0.30.13", default-features = false, features = ["x11", "rwh_06"] }
yew = { version = "=0.23.0", features = ["csr"] }
