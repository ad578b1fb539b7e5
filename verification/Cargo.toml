[package]
name = "aug_media_player"
version = "0.1.0"
edition = "2021"
publish = false

[dependencies]
uuid = { version = "=1.27.0", features = ["v4"] }
serde = { version = "=1.0.229", features = ["derive"] }
serde_json = "=1.0.151"
axum = { version = "=0.8.9", features = ["multipart"] }
tokio = { version = "=1.53.2", features = ["macros", "rt-multi-thread", "fs", "io-util", "net"] }
dotenv = "=0.15.0"
wasm-bindgen = "=0.2.129"
serde-wasm-bindgen = "=0.6.5"
