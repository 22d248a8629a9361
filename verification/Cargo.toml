[package]
name = "filter_design"
version = "0.1.0"
edition = "2021"
publish = false

[dependencies]
unic-langid = { version = "=0.9.6", features = ["macros"] }
fluent-templates = "=0.15.1"
sys-locale = "=0.3.2"
serde = { version = "=1.0.229", features = ["derive"] }
ron = "=0.12.3"
once_cell = "=1.21.4"
egui = "=0.37.0"
egui_plot = "=0.38.0"
egui_extras = "=0.37.0"
eframe = { version = "=0.37.0", default-features = false, features = ["default_fonts", "glow", "persistence", "x11"] }
rfd = { version = "=0.17.2", default-features = false, features = ["xdg-portal"] }
image = { version = "=0.25.10", default-features = false, features = ["png"] }
