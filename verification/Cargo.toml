[package]
name = "texwatch"
version = "0.1.0"
edition = "2021"
publish = false

[dependencies]
chrono = "*"
clap = { version = "*", features = ["derive"] }
inline_colorization = "*"
walkdir = "*"
