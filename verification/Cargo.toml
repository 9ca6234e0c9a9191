[package]
name = "lumidox_gui"
version = "0.1.0"
edition = "2021"
publish = false

[dependencies]
iced = { version = "0.13", default-features = false, features = ["tokio", "tiny-skia"] }
tokio = { version = "1", features = ["sync", "rt", "macros"] }
