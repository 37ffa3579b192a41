[package]
name = "colza"
version = "0.1.0"
edition = "2021"
publish = false

[dependencies]
anyhow = "=1.0.104"
ashpd = { version = "=0.9.3", default-features = false, features = ["tokio"] }
eframe = { version = "=0.36.2", default-features = false, features = ["default_fonts", "glow", "wayland"] }
image = { version = "=0.25.10", default-features = false, features = ["png"] }
pipewire = "=0.9.2"
tokio = { version = "=1.54.1", features = ["rt-multi-thread", "sync", "time"] }
