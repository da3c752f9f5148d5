[package]
name = "libcaesium"
version = "0.1.0"
edition = "2021"
publish = false

[dependencies]
image = "=0.25.2"
kamadak-exif = "=0.5.5"
