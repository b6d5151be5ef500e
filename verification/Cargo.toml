[package]
name = "sprite_render"
version = "0.1.0"
edition = "2021"
publish = false

[dependencies]
ahash = "=0.7.8"
bevy_asset = "=0.6.0"
bevy_core = "=0.6.0"
bevy_core_pipeline = "=0.6.0"
bevy_ecs = "=0.6.1"
bevy_math = "=0.6.0"
bevy_reflect = "=0.6.0"
bevy_render = "=0.6.1"
bevy_transform = "=0.6.0"
bevy_utils = "=0.6.0"
bytemuck = { version = "=1.25.2", features = ["derive"] }
darling_macro = "=0.13.4"
