[package]
name = "bevy_v4l"
version = "0.1.0"
edition = "2021"
publish = false

[dependencies]
v4l = "*"

[dev-dependencies]
ffimage = "*"
ffimage_yuv = "*"
