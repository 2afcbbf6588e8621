[package]
name = "batch_rotate"
version = "0.1.0"
edition = "2021"
publish = false

[dependencies]
clap = "4"
image = { version = "0.25", default-features = false, features = ["bmp", "gif", "jpeg", "png", "tiff", "webp"] }
indicatif = "0.17"
rayon = "1"
