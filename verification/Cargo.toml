[package]
name = "firesim"
version = "0.1.0"
edition = "2021"
publish = false

[dependencies]
rand = "0.8"
egui = "0.22"
egui-winit = { version = "0.22", default-features = false }
winit = { version = "0.28", default-features = false, features = ["x11"] }
image = { version = "0.24", default-features = false, features = ["png"] }
