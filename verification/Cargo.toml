[package]
name = "vector"
version = "0.1.0"
edition = "2021"
publish = false

[dependencies]
pathfinder_geometry = "*"
pathfinder_content = "*"
pathfinder_color = "*"
pathfinder_renderer = "*"
itertools = "*"
euclid = "*"
log = "*"
