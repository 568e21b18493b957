[package]
name = "markpad"
version = "0.1.0"
edition = "2021"
publish = false

[dependencies]
chrono = "=0.4.45"
comrak = { version = "=0.44.0", default-features = false }
mslnk = "=0.1.8"
notify = "=8.2.0"
opener = { version = "=0.9.0", features = ["reveal"] }
winreg = "=0.56.0"
