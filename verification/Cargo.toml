[package]
name = "gui_core"
version = "0.1.0"
edition = "2021"
publish = false

[dependencies]
epaint = { version = "=0.32.3", default-features = false }
emath = { version = "=0.32.3", default-features = false, features = ["serde"] }
ahash = { version = "=0.8.12", default-features = false, features = ["std"] }
log = "=0.4.34"
profiling = { version = "=1.0.18", default-features = false }
winit = "=0.30.13"
serde = { version = "=1.0.229", features = ["derive"] }
