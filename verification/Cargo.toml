[package]
name = "litematica_json_parser"
version = "0.1.0"
edition = "2021"
publish = false

[dependencies]
anyhow = "=1.0.104"
iced = { version = "=0.14.0", default-features = false, features = ["image", "tokio", "tiny-skia", "x11"] }
platform-dirs = "=0.3.0"
serde = { version = "=1.0.229", features = ["derive"] }
serde_json = "=1.0.154"
tokio = { version = "=1.54.1", features = ["fs", "io-util"] }
