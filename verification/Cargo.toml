[package]
name = "frameloop"
version = "0.1.0"
edition = "2021"
publish = false

[dependencies]
glam = "0.27"
bytemuck = "1"
image = { version = "0.24", default-features = false, features = ["png"] }
log = "0.4"
pollster = "0.3"
