[package]
name = "autoclicker"
version = "0.1.0"
edition = "2021"
publish = false

[dependencies]
clap = { version = "*", features = ["derive"] }
directories = "*"
global-hotkey = "*"
mouse-rs = "*"
serde = { version = "*", features = ["derive"] }
toml = "*"
