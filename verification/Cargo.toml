[package]
name = "golrs"
version = "0.1.0"
edition = "2021"
publish = false

[dependencies]
bytemuck = { version = "1", features = ["derive"] }
clap = { version = "4", features = ["cargo"] }
env_logger = { version = "0.10", default-features = false }
pollster = "0.3"
rand = "0.8"
winit = { version = "0.29", default-features = false, features = ["rwh_05", "x11"] }
