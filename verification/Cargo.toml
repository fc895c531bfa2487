[package]
name = "nes_emu"
version = "0.1.0"
edition = "2021"
publish = false

[dependencies]
eframe = { version = "0.30", default-features = false, features = ["default_fonts", "glow", "x11"] }
rand = "0.9"
