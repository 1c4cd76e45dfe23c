[package]
name = "ceres_pc1500"
version = "0.1.0"
edition = "2021"
publish = false

[dependencies]
chrono = "0.4.45"
clap = { version = "*", features = ["derive"] }
anyhow = "1.0.104"
directories = "*"
spin_sleep = "*"
thread-priority = "*"
pollster = "0.4.0"
winit = "0.30.13"
eframe = { version = "*", default-features = false, features = ["glow", "default_fonts", "x11"] }
