[package]
name = "axe_man_adventure"
version = "0.1.0"
edition = "2021"
publish = false
rust-version = "1.95"

[dependencies]
bevy = { version = "=0.18.1", default-features = false, features = ["std"] }
tinyrand = "=0.5.0"
