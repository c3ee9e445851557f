[package]
name = "silica_engine"
version = "0.1.0"
edition = "2021"
publish = false

[dependencies]
brotli = { version = "=9.0.0", features = ["portable-float"] }
png = "=0.17.16"
rand = "=0.8.8"
serde = { version = "=1.0.229", features = ["derive"] }
godot = "=0.5.5"
