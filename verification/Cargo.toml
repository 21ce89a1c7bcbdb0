[package]
name = "echo"
version = "0.1.0"
edition = "2021"
publish = false

[dependencies]
anyhow = "1"
chrono = "0.4"
dirs = "*"
global-hotkey = "*"
log = "0.4"
screencapturekit = "*"
serde = { version = "1", features = ["derive"] }
serde_yaml = "0.9"
tray-icon = "*"
