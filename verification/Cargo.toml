[package]
name = "linux_camera"
version = "0.1.0"
edition = "2021"
publish = false

[dependencies]
libcamera = "=0.6.0"
x-media = "=0.1.3"
x-variant = "=0.1.2"
