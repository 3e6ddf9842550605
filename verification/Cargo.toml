[package]
name = "rat"
version = "0.1.0"
edition = "2021"
publish = false

[dependencies]
bincode = "1.3"
byteorder = "1"
serde = { version = "1", features = ["derive"] }
serde-big-array = "0.5"
