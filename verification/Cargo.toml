[package]
name = "pira_wgpu"
version = "0.1.0"
edition = "2021"
publish = false

[dependencies]
wgpu = "=27.0.1"
glam = "=0.30.10"
bytemuck = { version = "=1.25.2", features = ["derive"] }
image = { version = "=0.25.10", default-features = false, features = ["hdr", "jpeg", "png"] }
pollster = "=0.4.0"
futures = "=0.3.34"
winit = { version = "0.30", default-features = false, features = ["rwh_06", "x11"] }
egui = { version = "0.33", default-features = false }
egui_extras = { version = "0.33", default-features = false }
egui-wgpu = { version = "0.33", default-features = false }
egui-winit = { version = "0.33", default-features = false }
