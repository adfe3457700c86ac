[package]
name = "chat_scroll"
version = "0.1.0"
edition = "2021"
publish = false

[dependencies]
ankurah = { version = "=0.9.3", features = ["derive"] }
ankurah-signals = "=0.9.3"
ankurah-storage-indexeddb-wasm = "=0.9.3"
ankurah-websocket-client-wasm = "=0.9.3"
console_error_panic_hook = "=0.1.7"
js-sys = "=0.3.106"
lazy_static = "=1.5.1"
leptos = { version = "=0.8.22", features = ["csr"] }
qrcode = { version = "=0.14.1", default-features = false, features = ["svg"] }
send_wrapper = "=0.6.0"
serde = { version = "=1.0.229", features = ["derive"] }
tracing = "=0.1.44"
tracing-wasm = "=0.2.1"
wasm-bindgen = "=0.2.129"
wasm-bindgen-futures = "=0.4.79"
web-sys = { version = "=0.3.106", features = ["AudioBuffer", "AudioBufferSourceNode", "AudioContext", "AudioContextState", "AudioDestinationNode", "AudioNode", "AudioParam", "BaseAudioContext", "CssStyleDeclaration", "Document", "DomRect", "Element", "Event", "EventTarget", "GainNode", "History", "HtmlDivElement", "HtmlElement", "HtmlInputElement", "KeyboardEvent", "Location", "MouseEvent", "Node", "Response", "Storage", "Url", "UrlSearchParams", "Window"] }
