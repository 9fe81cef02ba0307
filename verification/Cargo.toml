[package]
name = "taino_dnd"
version = "0.6.0"
edition = "2021"
publish = false

[dependencies]
thiserror = "=2.0.21"
leptos = { version = "=0.8.23", default-features = false, features = ["csr"] }
dioxus = { version = "0.7", default-features = false, features = ["macro", "html", "signals", "hooks"] }
web-sys = { version = "=0.3.107", features = ["Element", "PointerEvent", "KeyboardEvent", "Window", "Document", "DomRect", "CssStyleDeclaration", "HtmlElement", "MediaQueryList", "EventTarget", "Event"] }
wasm-bindgen = "=0.2.130"
js-sys = "=0.3.107"
