[package]
name = "aefr"
version = "0.1.0"
edition = "2021"
publish = false

[dependencies]
egui = "=0.27.2"
egui_extras = { version = "=0.27.2", default-features = false, features = ["image"] }
image = { version = "=0.24.9", default-features = false, features = ["png", "jpeg", "webp"] }
rayon = "=1.12.0"
rusty_spine = "=0.8.0"
serde = { version = "=1.0.229", features = ["derive"] }
serde_json = "=1.0.154"
