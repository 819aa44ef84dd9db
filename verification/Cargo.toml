[package]
name = "game_of_life"
version = "0.1.0"
edition = "2021"
publish = false

[dependencies]
rand = "0.8"
serde = { version = "1", features = ["derive"] }
egui = "0.21"
eframe = { version = "0.21", default-features = false, features = ["glow", "persistence"] }
