[package]
name = "fmlm"
version = "0.1.0"
edition = "2021"
publish = false

[dependencies]
base64 = "*"
dirs = "*"
futures = "*"
image = { version = "*", default-features = false, features = ["jpeg", "png", "gif", "webp", "bmp", "tiff"] }
rsmpeg = "*"
serde = { version = "*", features = ["derive"] }
serde_json = "*"
sha2 = "*"
tokio = { version = "*", features = ["sync", "rt", "rt-multi-thread"] }
walkdir = "*"
