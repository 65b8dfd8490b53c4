[package]
name = "rust2go"
version = "0.1.0"
edition = "2021"
publish = false

[dependencies]
slab = "0.4"
libc = "0.2"
parking_lot = "0.12"
tokio = { version = "1", default-features = false, features = ["rt", "net", "io-util", "sync", "time"] }
