[package]
name = "cathode8"
version = "0.1.0"
edition = "2021"
publish = false

[dependencies]
anyhow = "=1.0.104"
base64 = "=0.22.1"
cpal = "=0.18.2"
eframe = { version = "=0.37.0", default-features = false, features = ["default_fonts", "glow", "x11"] }
quick-xml = "=0.38.4"
rfd = "=0.17.2"
sha1 = "=0.10.7"
