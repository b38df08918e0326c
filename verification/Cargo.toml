[package]
name = "kataster"
version = "0.1.0"
edition = "2021"
publish = false

[dependencies]
bevy = { version = "0.9", default-features = false, features = ["bevy_asset", "bevy_core_pipeline", "bevy_render", "bevy_sprite", "bevy_text", "bevy_ui"] }
bevy_prototype_lyon = { version = "0.7" }
bevy_rapier2d = { version = "0.19" }
leafwing-input-manager = { version = "0.7" }
rand = { version = "0.8" }
