[package]
name = "mfdf"
version = "0.1.0"
edition = "2021"
publish = false

[dependencies]
cfg-if = "1"
chrono = "0.4"
nom-exif = "2"
pathdiff = "0.2"
walkdir = "2"
