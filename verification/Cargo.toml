[package]
name = "flybin"
version = "0.1.0"
edition = "2021"
publish = false

[dependencies]
nanoid = "*"
blake3 = "*"
chrono = "*"
syntect = { version = "*", default-features = false, features = ["default-fancy"] }
axum = "*"
tokio = { version = "*", features = ["full"] }
serde = { version = "*", features = ["derive"] }
dotenvy = "*"
