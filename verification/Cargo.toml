[package]
name = "capture"
version = "0.1.0"
edition = "2021"
publish = false

[dependencies]
bevy = { version = "=0.8.1", default-features = false, features = ["bevy_asset", "bevy_core_pipeline", "bevy_pbr", "bevy_render", "bevy_sprite", "bevy_winit", "x11"] }
bevy-hikari = "=0.2.21"
bevy-inspector-egui = { version = "=0.13.0", default-features = false }
bevy_mod_wanderlust = "=0.2.2"
bevy_rapier3d = "=0.16.2"
