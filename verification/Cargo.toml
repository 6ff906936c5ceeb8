[package]
name = "android_auto_link"
version = "0.1.0"
edition = "2021"
publish = false

[dependencies]
nusb = { version = "0.2", features = ["tokio"] }
rustls = { version = "0.23", default-features = false, features = ["std", "tls12", "ring"] }
tokio = { version = "1", features = ["rt", "sync", "time", "io-util"] }
tracing = "0.1"
