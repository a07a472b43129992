[package]
name = "il0373"
version = "0.1.0"
edition = "2021"
publish = false

[dependencies]
embedded-hal = { version = "=0.2.7", features = ["unproven"] }
nb = "=0.1.3"
embedded-graphics-core = "=0.4.1"

[dev-dependencies]
embedded-graphics = "=0.8.2"
