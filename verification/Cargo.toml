[package]
name = "orbit_gravity"
version = "0.1.0"
edition = "2021"
publish = false

[dependencies]
bevy = { version = "0.5", default-features = false, features = ["render", "bevy_wgpu", "bevy_winit", "x11"] }
bevy_rapier3d = "0.10"
nalgebra = "0.27"
log = "0.4"
