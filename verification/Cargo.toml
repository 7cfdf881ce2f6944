[package]
name = "obs_clip"
version = "0.1.0"
edition = "2021"
publish = false

[dependencies]
anyhow = "1"
image = { version = "0.24", default-features = false, features = ["png", "jpeg"] }
obs-sys = "*"
retour = "*"
winsafe = { version = "*", features = ["kernel", "user"] }
