[package]
name = "palette"
version = "0.1.0"
edition = "2021"
publish = false

[dependencies]
rand = "0.8"
approx = "0.5"
bytemuck = "1"
