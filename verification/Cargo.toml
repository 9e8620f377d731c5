[package]
name = "panpan"
version = "0.1.0"
edition = "2021"
publish = false

[dependencies]
pathdiff = "*"
anyhow = "1"
clap = { version = "4", features = ["derive"] }
