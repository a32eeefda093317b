[package]
name = "hero_anim"
version = "0.1.0"
edition = "2021"
publish = false

[dependencies]
bevy = { version = "=0.8.1", default-features = false, features = ["animation", "bevy_asset", "bevy_scene", "render"] }
