[package]
name = "charming_leptos"
version = "0.1.0"
edition = "2021"
publish = false

[dependencies]
charming = { version = "*", features = ["wasm"] }
console_error_panic_hook = "*"
leptos = { version = "*", features = ["hydrate"] }
leptos_meta = "*"
leptos_router = "*"
serde = { version = "*", features = ["derive"] }
serde-wasm-bindgen = "*"
wasm-bindgen = "*"
