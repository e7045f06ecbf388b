[package]
name = "seanime_desktop"
version = "0.1.0"
edition = "2021"
publish = false

[dependencies]
strip-ansi-escapes = "0.2"
tokio = { version = "1", features = ["time"] }
