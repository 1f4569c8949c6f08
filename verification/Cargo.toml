[package]
name = "pixeli"
version = "0.1.0"
edition = "2021"
publish = false

[dependencies]
libm = "*"
num-traits = "*"
serde = { version = "*", features = ["derive"] }
