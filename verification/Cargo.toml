[package]
name = "shader_playground"
version = "0.1.0"
edition = "2021"
publish = false

[dependencies]
anyhow = "1"
clap = { version = "4", features = ["derive"] }
gl = "0.14"
glutin = "0.32"
glutin-winit = "0.5"
log = "0.4"
notify-debouncer-mini = "0.4"
simplelog = "0.12"
thiserror = "1"
winit = "0.30"
