[package]
name = "muzik"
version = "0.1.0"
edition = "2021"
publish = false

[dependencies]
anyhow = "*"
dirs = "*"
eframe = { version = "*", default-features = false, features = ["glow", "x11", "default_fonts"] }
egui_material_icons = "*"
rodio = "*"
rustfft = "*"
