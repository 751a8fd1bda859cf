[package]
name = "x11_data_transfer"
version = "0.1.0"
edition = "2021"
publish = false

[dependencies]
tracing = "0.1"
winit-core = "0.31.0-beta.1"
x11-dl = "2"
x11rb = { version = "0.13", features = ["xfixes"] }
