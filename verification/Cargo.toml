[package]
name = "game_session"
version = "0.1.0"
edition = "2021"
publish = false

[dependencies]
gstd = "1.4"
gmeta = "1.4"
