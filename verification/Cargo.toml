[package]
name = "thumbserve"
version = "0.1.0"
edition = "2021"
publish = false

[dependencies]
image = "*"
webp = "*"
serde = { version = "*", features = ["derive"] }
tokio = { version = "*", features = ["fs", "io-util", "rt", "sync", "time", "macros"] }
uuid = { version = "*", features = ["v4", "serde"] }
