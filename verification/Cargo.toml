[package]
name = "winit_egui_wgpu"
version = "0.1.0"
edition = "2021"
publish = false

[dependencies]
bytemuck = { version = "1", features = ["derive"] }
egui = "0.28"
egui-winit = { version = "0.28", default-features = false }
glam = "0.28"
pollster = "0.3"
winit = { version = "0.29", default-features = false, features = ["rwh_06", "x11"] }
