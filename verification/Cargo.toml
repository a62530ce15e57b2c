[package]
name = "raytrace_gl"
version = "0.1.0"
edition = "2021"
publish = false

[dependencies]
gl = "0.14"
glutin = "0.32"
glutin-winit = "0.5"
winit = "0.30"
nalgebra-glm = "0.19"
