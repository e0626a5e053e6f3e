[package]
name = "photolib"
version = "0.1.0"
edition = "2021"

[dependencies]
md5 = "*"
uuid = { version = "*", features = ["v4"] }
chrono = "*"
kamadak-exif = "*"
image = "*"
libheif-rs = "*"
rusqlite = { version = "*", features = ["bundled"] }
serde_json = "*"
rayon = "*"
