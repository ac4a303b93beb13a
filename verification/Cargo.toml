[package]
name = "voxview"
version = "0.1.0"
edition = "2021"
publish = false

[dependencies]
glium = "0.34"
winit = "0.29"
nifti = { version = "*", features = ["ndarray_volumes"] }
serde = { version = "1", features = ["derive"] }
serde_json = "1"
image = "0.24"
