[package]
name = "grid_instances"
version = "0.1.0"
edition = "2021"
publish = false

[dependencies]
cgmath = "*"
bytemuck = { version = "*", features = ["derive"] }
