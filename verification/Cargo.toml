[package]
name = "raytracer"
version = "0.1.0"
edition = "2021"
publish = false

[dependencies]
cgmath = "=0.18.0"
gltf = { version = "=1.4.1", features = ["KHR_materials_ior", "KHR_materials_transmission"] }
image = "=0.25.10"
indicatif = "=0.18.6"
rayon = "=1.12.0"
