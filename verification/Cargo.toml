[package]
name = "double_movement"
version = "0.1.0"
edition = "2021"
publish = false

[dependencies]
anyhow = "1"
dirs = "5"
lazy_static = "1.4"
log = "0.4"
multiinput = "0.1.0"
neon = "1"
serde = { version = "1", features = ["derive"] }
serde_json = "1"
simplelog = "0.12"
vigem = "0.9.1"
winapi = { version = "0.3.9", features = ["winuser"] }
