[package]
name = "mall_raycaster"
version = "0.1.0"
edition = "2021"
publish = false

[dependencies]
raylib = "5.0"
rodio = "0.19"
