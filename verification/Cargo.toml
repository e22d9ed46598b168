[package]
name = "twinstick_arena"
version = "0.1.0"
edition = "2021"
publish = false

[dependencies]
futures = "0.3"
js-sys = "0.3"
serde = { version = "1", features = ["derive"] }
wasm-bindgen = { version = "0.2", features = ["serde-serialize"] }
wasm-bindgen-futures = "0.4"
web-sys = { version = "0.3", features = ["CanvasRenderingContext2d", "Document", "Element", "EventTarget", "Gamepad", "GamepadButton", "HtmlCanvasElement", "HtmlElement", "HtmlImageElement", "Navigator", "Node", "Request", "RequestInit", "RequestMode", "Response", "Window"] }
