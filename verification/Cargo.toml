[package]
name = "voxel_pipeline"
version = "0.1.0"
edition = "2021"
publish = false

[dependencies]
bevy = { version = "0.14", default-features = false }
bytemuck = "1"
rand = "0.8"
