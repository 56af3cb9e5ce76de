[package]
name = "trail_shooter"
version = "0.1.0"
edition = "2021"
publish = false

[dependencies]
bevy = { version = "=0.16.1", default-features = false, features = ["bevy_core_pipeline", "bevy_render", "bevy_sprite", "bevy_window", "bevy_winit", "x11"] }
bevy_hanabi = { version = "=0.16.0", default-features = false, features = ["2d"] }
avian2d = { version = "=0.3.0", default-features = false, features = ["2d", "f32"] }
