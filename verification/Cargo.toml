[package]
name = "molecular"
version = "0.1.0"
edition = "2021"
publish = false

[dependencies]
iced = { version = "=0.14.0", default-features = false, features = ["canvas", "advanced", "tiny-skia", "x11", "thread-pool"] }
image = { version = "=0.25.10", default-features = false, features = ["png"] }
kurbo = "=0.13.1"
nalgebra = "=0.35.0"
rfd = { version = "=0.17.2", default-features = false, features = ["xdg-portal"] }
serde = { version = "=1.0.229", features = ["derive"] }
serde_json = { version = "=1.0.154", features = ["float_roundtrip"] }
