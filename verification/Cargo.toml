[package]
name = "lampshade"
version = "0.10.0"
edition = "2021"
publish = false

[dependencies]
wgpu = "=29.0.4"
bytemuck = { version = "=1.25.2", features = ["derive"] }
futures = "=0.3.34"
