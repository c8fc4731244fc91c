[package]
name = "framy"
version = "0.1.0"
edition = "2021"
publish = false

[dependencies]
image = "0.24"
kamadak-exif = "0.5"
clap = "4"
