[package]
name = "trichloride"
version = "0.1.0"
edition = "2021"
publish = false

[dependencies]
bytes = "*"
mp4 = "*"
openh264 = "*"
