[package]
name = "orange_museum"
version = "0.1.0"
edition = "2021"
publish = false

[dependencies]
macroquad = "*"
yew = { version = "*", features = ["csr"] }
yew-router = "*"
gloo-storage = "*"
