[package]
name = "hello_egui_image"
version = "0.1.0"
edition = "2021"
publish = false

[dependencies]
image = { version = "*", default-features = false, features = ["png", "jpeg"] }
eframe = { version = "*", default-features = false, features = ["glow", "x11"] }
egui_extras = { version = "*", default-features = false, features = ["image"] }
tokio = { version = "*", default-features = false, features = ["rt-multi-thread"] }
log = "*"
env_logger = { version = "*", default-features = false }
