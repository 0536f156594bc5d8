[package]
name = "trash_the_tower"
version = "0.1.0"
edition = "2021"
publish = false

[dependencies]
bevy = { version = "0.8", default-features = false, features = ["render", "bevy_winit", "bevy_asset", "x11"] }
bevy_prototype_lyon = "0.6"
bevy_rapier2d = "0.16"
iyes_loopless = "0.7"
serde = { version = "1", features = ["derive"] }
serde_json = "1"
