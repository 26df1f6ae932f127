[package]
name = "scene_object"
version = "0.1.0"
edition = "2021"
publish = false

[dependencies]
bytemuck = "1"
nalgebra = "*"
tobj = "*"
wgpu = "*"
winit = "*"
imgui = "*"
