[package]
name = "canvas2d"
version = "0.1.0"
edition = "2021"
publish = false

[dependencies]
num = "0.4"
gl = "0.14"
nalgebra-glm = "*"
glutin = { version = "0.29", default-features = false, features = ["x11"] }
png = "0.17"
