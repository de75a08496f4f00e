[package]
name = "neural"
version = "0.1.0"
edition = "2021"
publish = false

[dependencies]
nalgebra = "0.33"
rand = "0.9"
thiserror = "2"
macroquad = "0.4"
