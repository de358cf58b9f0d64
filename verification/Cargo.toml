[package]
name = "pixfetch"
version = "0.1.0"
edition = "2021"
publish = false

[dependencies]
ansipix = "=1.0.0"
battery = "=0.7.8"
clap = { version = "=3.2.25", features = ["derive"] }
serde = { version = "=1.0.229", features = ["derive"] }
sysinfo = "=0.29.11"
systemstat = "=0.2.7"
toml = "=0.5.11"
