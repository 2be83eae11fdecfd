[package]
name = "md_highlight"
version = "0.1.0"
edition = "2021"
publish = false

[dependencies]
pulldown-cmark = "0.9"
serde = { version = "1", features = ["derive"] }
serde_json = "1"
dirs = "*"
eframe = { version = "*", default-features = false, features = ["glow", "default_fonts", "x11"] }
egui = "*"
