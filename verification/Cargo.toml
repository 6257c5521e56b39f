[package]
name = "imgpress"
version = "0.1.0"
edition = "2021"
publish = false

[dependencies]
anyhow = "1"
clap = { version = "4", features = ["derive"] }
image = { version = "0.25", default-features = false, features = ["jpeg", "png", "webp", "tiff", "bmp"] }
indicatif = "0.17"
mozjpeg = "0.10"
rayon = "1"
walkdir = "2"
