[package]
name = "reduction_view"
version = "0.1.0"
edition = "2021"
publish = false

[dependencies]
js-sys = "*"
log = "*"
serde = { version = "*", features = ["derive"] }
wasm-bindgen = "*"
web-sys = { version = "*", features = ["CanvasRenderingContext2d", "CanvasGradient", "Document", "DomRect", "Element", "EventTarget", "HtmlCanvasElement", "HtmlElement", "MouseEvent", "WebGlBuffer", "WebGlProgram", "WebGlRenderingContext", "WebGlShader", "WebGlUniformLocation", "WheelEvent", "Window"] }
yew = { version = "*", features = ["csr"] }
