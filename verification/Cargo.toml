[package]
name = "pixel_pipeline"
version = "0.1.0"
edition = "2021"
publish = false

[dependencies]
image = { version = "*", default-features = false }
rand = "0.8"
num_cpus = "*"
