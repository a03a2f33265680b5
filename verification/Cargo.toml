[package]
name = "multitoon"
version = "0.1.0"
edition = "2021"
publish = false

[dependencies]
anyhow = "1"
core-foundation = "0.9"
core-graphics = "0.23"
directories = "5"
egui = "0.28"
serde = { version = "1", features = ["derive"] }
serde_json = "1"
x11rb = "0.13"
