[package]
name = "meta_baby"
version = "0.1.0"
edition = "2021"
publish = false

[dependencies]
base64 = "0.21"
fast_qr = { version = "0.12", features = ["image"] }
leptos = { version = "0.6", features = ["ssr"] }
leptos_meta = { version = "0.6", features = ["ssr"] }
leptos_router = { version = "0.6", features = ["ssr"] }
serde = { version = "1", features = ["derive"] }
validator = { version = "0.18", features = ["derive"] }
