[package]
name = "rsso"
version = "0.1.0"
edition = "2021"
publish = false

[dependencies]
anyhow = "1"
async-trait = "0.1"
clap = { version = "4", features = ["derive", "env"] }
console_error_panic_hook = "0.1"
ed25519-dalek = "2"
getrandom = { version = "0.2", features = ["js"] }
hex = "0.4"
nanoid = "0.4"
reqwest = { version = "0.12", default-features = false, features = ["json", "rustls-tls"] }
serde = { version = "1", features = ["derive"] }
serde_json = "1"
thiserror = "1"
tokio = { version = "1", features = ["macros", "rt-multi-thread"] }
wasm-bindgen = "0.2"
worker = { version = "*", features = ["d1"] }
