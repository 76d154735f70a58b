[package]
name = "h264_pgm"
version = "0.1.0"
edition = "2021"
publish = false

[dependencies]
libc = "*"
rusty_ffmpeg = "*"
