[package]
name = "visual_metronome"
version = "0.1.0"
edition = "2021"
publish = false

[dependencies]
korg_nano_kontrol_2 = "=0.1.1"
macroquad = "=0.4.16"
midir = "=0.5.0"
sdl3 = { version = "=0.20.0", features = ["ttf"] }
