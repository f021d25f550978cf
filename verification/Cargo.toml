[package]
name = "mesh_config_reader"
version = "0.1.0"
edition = "2021"
publish = false

[dependencies]
prost = "=0.14.4"
prost-types = "=0.14.4"
eframe = { version = "=0.36.2", default-features = false, features = ["glow", "default_fonts", "x11"] }
egui = "=0.36.2"
rfd = { version = "*", default-features = false, features = ["xdg-portal", "tokio"] }
futures = "=0.3.34"
