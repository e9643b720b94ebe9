[package]
name = "egui_glium"
version = "0.1.0"
edition = "2021"
publish = false

[dependencies]
egui = "0.15"
egui-winit = "0.15"
glium = "0.30"
