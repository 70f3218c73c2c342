[package]
name = "rs_3d_viewer"
version = "0.1.0"
edition = "2021"
publish = false

[dependencies]
raylib = "5"
