[package]
name = "si"
version = "0.1.0"
edition = "2021"
publish = false

[dependencies]
num = "0.4"

[dev-dependencies]
quickcheck = { version = "1", default-features = false }
