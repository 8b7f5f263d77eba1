[package]
name = "game_master"
version = "0.1.0"
edition = "2021"
publish = false

[dependencies]
rand = "=0.8.8"
serde = { version = "=1.0.229", features = ["derive"] }
serde_json = "=1.0.154"
sqlx = { version = "=0.7.4", default-features = false, features = ["runtime-tokio", "sqlite", "macros"] }
actix-web = { version = "=4.18.1", default-features = false, features = ["macros"] }
actix-cors = "=0.6.5"
reqwest = { version = "=0.11.27", default-features = false, features = ["json", "rustls-tls"] }
env_logger = "=0.10.2"
log = "=0.4.34"
leptos = { version = "0.6", features = ["csr"] }
wasm-bindgen = "0.2"
console_error_panic_hook = "0.1"
wasm-logger = "0.2"
