[package]
name = "vkrender"
version = "0.1.0"
edition = "2021"
publish = false

[dependencies]
anyhow = "1"
gltf = "1"
nalgebra = "0.33"
postcard = { version = "1", features = ["alloc"] }
serde = { version = "1", features = ["derive"] }
serde_json = "1"
thiserror = "2"
vulkano = "0.35"
wavefront = "0.2"
winit = "0.30"
