[package]
name = "platformer"
version = "0.1.0"
edition = "2021"
publish = false

[dependencies]
wasm-bindgen = "0.2"
js-sys = "0.3"
console_error_panic_hook = "0.1"

[dependencies.web-sys]
version = "0.3"
features = ["console", "Window", "Document", "Element", "HtmlElement", "Node", "EventTarget", "Event", "UiEvent", "HtmlCanvasElement", "DomRect", "MouseEvent", "WheelEvent", "KeyboardEvent", "WebGl2RenderingContext", "WebGlShader", "WebGlProgram", "WebGlBuffer", "WebGlUniformLocation"]
