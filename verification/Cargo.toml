[package]
name = "illusion_of_security"
version = "0.1.0"
edition = "2021"
publish = false

[dependencies]
anyhow = "=1.0.104"
bevy = { version = "=0.5.0", default-features = false, features = ["render"] }
bevy_egui = { version = "=0.4.2", default-features = false }
bevy-inspector-egui = { version = "=0.5.1", default-features = false }
bevy_prototype_debug_lines = "=0.3.4"
heron = { version = "=0.12.1", features = ["2d"] }
ldtk_rust = "=0.5.3"
rand = "=0.8.8"
serde = { version = "=1.0.229", features = ["derive"] }
serde_json = "=1.0.154"
syn = { version = "=1.0.65", features = ["full"] }
thiserror = "=1.0.69"
