[package]
name = "pvz_rust"
version = "0.1.0"
edition = "2021"
publish = false
rust-version = "1.95"

[dependencies]
rand = "=0.10.3"
dirs = "=7.0.0"
ron = "=0.12.3"
serde = { version = "=1.0.229", features = ["derive"] }
walkdir = "=2.5.0"
bevy = { version = "=0.18.1", default-features = false, features = ["std", "bevy_state", "bevy_asset", "bevy_window", "bevy_winit", "bevy_log", "bevy_sprite", "bevy_camera", "bevy_color", "bevy_image"] }
bevy_egui = { version = "=0.39.1", default-features = false }
