[package]
name = "metron"
version = "0.1.0"
edition = "2021"
publish = false

[dependencies]
nalgebra = "0.33"
num-complex = "0.4"
num-traits = "0.2"
serde = { version = "1", features = ["derive"] }
