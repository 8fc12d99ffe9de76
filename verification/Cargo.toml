[package]
name = "cursor_hover"
version = "0.1.0"
edition = "2021"
publish = false

[dependencies]
bevy = { version = "0.15", default-features = false, features = ["bevy_window", "bevy_render", "bevy_sprite", "bevy_ui"] }
