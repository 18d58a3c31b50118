[package]
name = "graph_punk"
version = "0.1.0"
edition = "2021"

[dependencies]
freetype = "0.7"
gl = "0.14"
sdl2 = "0.36"
