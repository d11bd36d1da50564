[package]
name = "auv"
version = "0.1.0"
edition = "2021"
publish = false

[dependencies]
anyhow = "1"
cpal = "*"
ffmpeg-next = "*"
fltk = "*"
gl = "0.14"
log = "0.4"
png = "*"
ringbuf = "0.4"
