[package]
name = "swoop_ui"
version = "0.1.0"
edition = "2021"
publish = false

[dependencies]
bevy_app = "0.16"
bevy_asset = "0.16"
bevy_color = "0.16"
bevy_ecs = "0.16"
bevy_image = "0.16"
bevy_math = "0.16"
bevy_text = "0.16"
bevy_ui = "0.16"
