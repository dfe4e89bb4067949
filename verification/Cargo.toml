[package]
name = "shader_playground"
version = "0.1.0"
edition = "2021"
publish = false

[dependencies]
rand = "=0.10.3"
strum = { version = "=0.28.0", features = ["derive"] }
