[package]
name = "clearframe"
version = "0.1.0"
edition = "2021"
publish = false

[dependencies]
wgpu = { version = "22", default-features = false }
winit = "0.30"
tokio = { version = "1", default-features = false, features = ["rt"] }
tracing = "0.1"
tracing-subscriber = { version = "0.3", default-features = false, features = ["fmt"] }
