[package]
name = "webox"
version = "0.1.0"
edition = "2021"
publish = false

[dependencies]
cef = "156"
eframe = { version = "0.37", default-features = false, features = ["default_fonts", "glow", "x11"] }
egui = { version = "0.37", default-features = false }
