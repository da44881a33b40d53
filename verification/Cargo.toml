[package]
name = "scraper"
version = "0.5.0"
edition = "2021"
publish = false

[dependencies]
chrono = "=0.4.45"
regex = "=1.13.1"
log = "=0.4.35"
lazy_static = "=1.5.1"
serde = { version = "=1.0.229", features = ["derive"] }
serde_yaml = "=0.9.34"
log4rs = "=1.4.0"
tinyfiledialogs = "=3.9.1"
eframe = { version = "*", default-features = false, features = ["default_fonts", "glow", "x11"] }
egui = "*"
image = { version = "*", default-features = false, features = ["png"] }
tokio = { version = "*", features = ["rt-multi-thread", "macros"] }
