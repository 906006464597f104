[package]
name = "just_stop"
version = "0.1.0"
edition = "2021"
publish = false

[dependencies]
image = { version = "0.25", default-features = false }
nokhwa = { version = "0.10", features = ["output-threaded"] }
tokio = { version = "1", features = ["rt"] }
