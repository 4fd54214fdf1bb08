[package]
name = "spectrum"
version = "0.1.0"
edition = "2021"
publish = false

[dependencies]
js-sys = "0.3"
rand = "0.7"
wasm-bindgen = "0.2"
wee_alloc = "0.4"
web-sys = { version = "0.3", features = ["CanvasRenderingContext2d", "HtmlCanvasElement", "ImageData", "WebGlBuffer", "WebGlProgram", "WebGlRenderingContext", "WebGlShader", "WebGlUniformLocation"] }
