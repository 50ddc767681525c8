[package]
name = "vkit_viewport"
version = "0.1.0"
edition = "2021"
publish = false

[dependencies]
egui = "=0.37.0"
glam = "=0.34.2"
image = { version = "=0.25.10", default-features = false, features = ["png", "jpeg", "webp", "bmp", "tiff"] }
rfd = { version = "=0.17.2", default-features = false, features = ["xdg-portal"] }
