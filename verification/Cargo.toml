[package]
name = "voxel_viewer"
version = "0.1.0"
edition = "2021"
publish = false

[dependencies]
bytemuck = { version = "1", features = ["derive"] }
dot_vox = "5"
glam = "*"
log = "0.4"
wgpu = "*"
winit = "*"
