[package]
name = "crinkle_contraption"
version = "0.1.0"
edition = "2021"
publish = false

[dependencies]
eframe = { version = "0.22", default-features = false, features = ["default_fonts", "glow"] }
tracing-subscriber = "0.3"
