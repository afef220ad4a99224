[package]
name = "storage_image"
version = "0.1.0"
edition = "2021"
publish = false

[dependencies]
smallvec = "1"
cgmath = "0.18"
nalgebra = "0.31"
