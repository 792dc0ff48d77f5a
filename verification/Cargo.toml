[package]
name = "balls_and_walls"
version = "0.1.0"
edition = "2021"
publish = false

[dependencies]
rand = "0.8"
nalgebra = "*"
ncollide2d = "*"
nphysics2d = "*"
