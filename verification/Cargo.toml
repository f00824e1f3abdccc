[package]
name = "warden_worker"
version = "0.1.0"
edition = "2021"
publish = false

[dependencies]
base64 = "0.22"
chrono = "0.4"
constant_time_eq = "*"
jsonwebtoken = "9"
pbkdf2 = "0.12"
sha2 = "0.10"
serde = { version = "1", features = ["derive"] }
serde_json = { version = "1", features = ["preserve_order"] }
uuid = { version = "1", features = ["v4"] }
log = "0.4"
worker = { version = "*", features = ["http", "axum", "d1"] }
axum = { version = "0.8", default-features = false, features = ["json", "query", "multipart"] }
tower-http = { version = "0.6", features = ["cors"] }
tower-service = "0.3"
wasm-bindgen = "0.2"
wasm-bindgen-futures = "0.4"
js-sys = "0.3"
web-sys = { version = "0.3", features = ["Crypto", "CryptoKey", "SubtleCrypto", "Pbkdf2Params"] }
console_log = "1"
console_error_panic_hook = "0.1"
