[package]
name = "spin_scene"
version = "0.1.0"
edition = "2021"
publish = false

[dependencies]
shura = { version = "=0.1.4", default-features = false }
