[package]
name = "draw2d_types"
version = "0.1.0"
edition = "2021"
publish = false

[dependencies]
gfx = "*"
nalgebra = "*"
serde = { version = "*", features = ["derive"] }
