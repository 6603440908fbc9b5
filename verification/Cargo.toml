[package]
name = "webgl_practices"
version = "0.1.0"
edition = "2021"
publish = false

[dependencies]
wasm-bindgen = "*"
js-sys = "*"
web-sys = { version = "*", features = ["Window", "Document", "Element", "HtmlElement", "HtmlCanvasElement", "CssStyleDeclaration", "Location", "Text", "Node", "EventTarget", "Event", "MouseEvent", "WheelEvent", "WebGl2RenderingContext", "WebGlProgram", "WebGlShader", "WebGlBuffer", "WebGlUniformLocation", "WebGlVertexArrayObject"] }
cgmath = "*"
log = "*"
console_log = "*"
