[package]
name = "rsynth"
version = "0.1.0"
edition = "2021"
publish = false

[dependencies]
anyhow = "*"
cpal = "*"
lockfree = "*"
pitch_calc = "*"
