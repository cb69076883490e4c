[package]
name = "trakt_proxy"
version = "0.1.0"
edition = "2021"
publish = false

[dependencies]
axum = { version = "*", default-features = false }
console_error_panic_hook = "0.1"
reqwest = { version = "*", default-features = false }
serde = { version = "1", features = ["derive"] }
serde_json = "1"
tower-service = "0.3"
worker = { version = "*", features = ["http"] }
