[package]
name = "foxcheck"
version = "0.1.0"
edition = "2021"
publish = false

[dependencies]
axum = { version = "*", features = ["multipart"] }
minijinja = "*"
serde = { version = "*", features = ["derive"] }
tch = "*"
tokio = { version = "*", features = ["macros", "rt-multi-thread", "net"] }
