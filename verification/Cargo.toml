[package]
name = "photo_cull"
version = "0.1.0"
edition = "2021"
publish = false

[dependencies]
imagesize = { version = "=0.15.0", default-features = false, features = ["bmp", "jpeg", "png", "tiff", "webp"] }
kamadak-exif = "=0.6.1"
rayon = "=1.12.0"
serde = { version = "=1.0.229", features = ["derive"] }
tauri = { version = "=2.12.5", default-features = false }
walkdir = "=2.5.0"
