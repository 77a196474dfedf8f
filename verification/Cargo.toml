[package]
name = "gl_vertex"
version = "0.1.0"
edition = "2021"
publish = false

[dependencies]
gl = "*"
nalgebra = "*"
simba = "*"
