[package]
name = "sdre-rust-adsb-parser"
version = "0.1.0"
edition = "2021"
publish = false

[dependencies]
serde = { version = "1", features = ["derive"] }
serde_json = "1"
hex = "0.4"
libm = "0.2"
chrono = "0.4"
custom_error = "1"
