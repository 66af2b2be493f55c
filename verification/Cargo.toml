[package]
name = "desperate_dig"
version = "0.1.0"
edition = "2021"
publish = false

[dependencies]
glfw = { version = "=0.41.0", default-features = false }
luminance = "=0.43.2"
luminance-derive = "=0.6.3"
luminance-gl = "=0.16.1"
luminance-glfw = { version = "=0.14.4", default-features = false }
luminance-windowing = "=0.9.3"
nalgebra-glm = "=0.21.0"
