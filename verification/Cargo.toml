[package]
name = "wezterm_gui"
version = "0.1.0"
edition = "2021"
publish = false

[dependencies]
euclid = "0.22"
serde = { version = "1.0", features = ["derive"] }
serde_json = "1.0"
anyhow = "1.0"
log = "0.4"
lazy_static = "1.4"
