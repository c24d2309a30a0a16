[package]
name = "jom"
version = "0.1.0"
edition = "2021"
publish = false

[dependencies]
ron = "*"
serde = { version = "*", features = ["derive"] }
termion = "*"
thiserror = "*"
