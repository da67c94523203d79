[package]
name = "snake_ctrl"
version = "0.1.0"
edition = "2021"
publish = false

[dependencies]
rand = "0.7"
colorsys = "*"
dirs = "*"
image = { version = "*", default-features = false, features = ["png"] }
lazy_static = "1"
piston = "*"
piston2d-graphics = "*"
piston2d-opengl_graphics = "*"
piston2d-sprite = "*"
pistoncore-glutin_window = "*"
thiserror = "1"
