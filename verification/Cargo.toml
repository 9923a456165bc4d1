[package]
name = "openpen"
version = "0.1.0"
edition = "2021"
publish = false

[dependencies]
eframe = { version = "0.37", default-features = false, features = ["glow", "x11"] }
serde = { version = "1", features = ["derive"] }
