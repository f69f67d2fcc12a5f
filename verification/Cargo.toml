[package]
name = "pixel_sprite_studio"
version = "0.1.0"
edition = "2021"
publish = false

[dependencies]
base64 = "0.22"
image = { version = "0.25", default-features = false, features = ["png", "jpeg"] }
serde = { version = "1", features = ["derive"] }
serde_json = "1"
bevy = { version = "0.15", default-features = false }
bevy_egui = { version = "0.31", default-features = false }
