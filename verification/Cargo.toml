[package]
name = "sim7000_at"
version = "0.1.0"
edition = "2021"
publish = false

[dependencies]
chrono = { version = "*", default-features = false }
embassy-time = { version = "*", features = ["std"] }
heapless = "*"
bitflags = "*"
