[package]
name = "deadlocked"
version = "0.1.0"
edition = "2021"
publish = false

[dependencies]
egui = { version = "=0.37.0", features = ["serde"] }
egui_glow = { version = "=0.37.0", features = ["winit"] }
glam = { version = "=0.34.2", features = ["serde"] }
glutin = "=0.32.3"
glutin-winit = "=0.5.0"
rand = "=0.10.3"
rand_distr = "=0.6.0"
serde = { version = "=1.0.229", features = ["derive"] }
strum = { version = "=0.28.0", features = ["derive"] }
toml = "=1.1.8"
winit = "=0.30.13"
