[package]
name = "nis_scaler"
version = "0.1.0"
edition = "2021"
publish = false

[dependencies]
bevy = { version = "=0.10.1", default-features = false, features = ["bevy_render", "bevy_core_pipeline"] }
bytemuck = "1"
