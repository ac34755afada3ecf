[package]
name = "image_peek"
version = "0.1.0"
edition = "2021"
publish = false

[dependencies]
image = "0.24"
termsize = "0.1"
yansi = "0.5"
