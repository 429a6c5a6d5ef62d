[package]
name = "luamine"
version = "0.1.0"
edition = "2021"
publish = false

[dependencies]
full_moon = "*"
clap = { version = "*", features = ["derive"] }
