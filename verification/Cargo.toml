[package]
name = "vidseq"
version = "0.1.0"
edition = "2021"
publish = false

[dependencies]
image = { version = "0.24", default-features = false }
gstreamer = "0.18"
gstreamer-app = "0.18"
