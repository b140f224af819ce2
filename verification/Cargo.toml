[package]
name = "placeholder_image"
version = "0.1.0"
edition = "2021"
publish = false

[dependencies]
image = { version = "0.24", default-features = false, features = ["png"] }
imageproc = { version = "0.23", default-features = false }
rusttype = "0.9"
axum = "0.6"
tokio = { version = "1", features = ["macros", "rt-multi-thread"] }
