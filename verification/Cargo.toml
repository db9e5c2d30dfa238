[package]
name = "easy_paste"
version = "0.1.0"
edition = "2021"
publish = false

[dependencies]
chrono = "0.4"
uuid = { version = "1", features = ["v4"] }
serde = { version = "1", features = ["derive"] }
serde_json = "1"
clipboard-rs = "*"
image = "*"
dirs = "*"
lazy_static = "1"
flate2 = "1"
tar = "0.4"
unrar = "*"
winreg = "*"
log = "0.4"
