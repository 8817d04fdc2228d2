[package]
name = "stabilizer"
version = "0.1.0"
edition = "2021"
publish = false

[dependencies]
arbitrary-int = "*"
embedded-hal = "1"
heapless = "*"
serde = { version = "1", features = ["derive"] }
serde-json-core = "*"
