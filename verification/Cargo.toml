[package]
name = "danji"
version = "0.1.0"
edition = "2021"
publish = false

[dependencies]
clap = { version = "4", features = ["derive"] }
cpal = "*"
hound = "3"
log = "0.4"
env_logger = "*"
eframe = { version = "*", default-features = false, features = ["default_fonts", "glow", "x11"] }
coreaudio-sys = "*"
