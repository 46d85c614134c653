[package]
name = "loopie"
version = "0.1.0"
edition = "2021"
publish = false

[dependencies]
base64 = "0.22"
screenshots = "0.8"
