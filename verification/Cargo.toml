[package]
name = "caie_asm"
version = "0.1.0"
edition = "2021"
publish = false

[dependencies]
chrono = { version = "0.4", features = ["serde"] }
eframe = { version = "0.29", default-features = false, features = ["default_fonts", "glow", "x11"] }
egui_dock = { version = "0.14", features = ["serde"] }
serde = { version = "1", features = ["derive"] }
serde_json = "1"
thiserror = "1"
