[package]
name = "day"
version = "0.1.0"
edition = "2021"
publish = false

[dependencies]
anyhow = "1"
chrono = { version = "0.4", default-features = false, features = ["clock"] }
clap = { version = "4", features = ["derive"] }
color-print = "0.3"
confy = "*"
serde = { version = "1", features = ["derive"] }
