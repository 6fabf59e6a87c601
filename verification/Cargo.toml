[package]
name = "renderer"
version = "0.1.0"
edition = "2021"
publish = false

[dependencies]
image = "0.24"
glow = "0.11"
glutin = "0.27"
winit = "0.25"
glyph_brush = "0.7"
tobj = "2"
tokio = { version = "1", features = ["rt", "fs", "io-util"] }
futures = "0.3"
nalgebra = "0.29"
nalgebra-glm = "0.15"
anyhow = "1"
instant = "0.1"
