[package]
name = "mesh_tools"
version = "0.1.0"
edition = "2021"
publish = false

[dependencies]
bevy = { version = "=0.9.1", default-features = false, features = ["bevy_asset", "bevy_render"] }
thiserror = "1"

[dev-dependencies]
glam = "0.22"
