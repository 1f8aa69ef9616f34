[package]
name = "vector_render"
version = "0.1.0"
edition = "2021"
publish = false

[dependencies]
anyhow = "*"
generational-arena = "*"
glsp = "*"
legion = "*"
lyon = "*"
miniquad = "*"
nalgebra = "*"
ncollide2d = "*"
nphysics2d = "*"
ttf-parser = "*"
usvg = "*"
xmltree = "*"
