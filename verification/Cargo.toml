[package]
name = "rusty_wordle"
version = "0.1.0"
edition = "2021"
publish = false

[dependencies]
rand = "=0.8.8"
serde_json = "=1.0.154"
rayon = "=1.12.0"
eframe = { version = "=0.29.1", default-features = false, features = ["default_fonts", "glow", "x11"] }
reqwest = { version = "=0.12.28", default-features = false, features = ["blocking", "rustls-tls"] }
