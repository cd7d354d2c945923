[package]
name = "tabbed_documents"
version = "0.1.0"
edition = "2021"
publish = false

[dependencies]
eframe = { version = "0.31", default-features = false, features = ["default_fonts", "glow", "x11"] }
egui_colors = "0.8"
egui_extras = { version = "0.31", default-features = false, features = ["image"] }
image = { version = "0.25", default-features = false, features = ["bmp"] }
rfd = "0.15"
