[package]
name = "client"
version = "0.1.0"
edition = "2021"
publish = false

[dependencies]
rand = "0.8"
heapless = "0.8"
fixed = "1"
postcard = "1"
serde = { version = "1", features = ["derive"] }
