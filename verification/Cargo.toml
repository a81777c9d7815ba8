[package]
name = "yars_lib"
version = "0.1.0"
edition = "2021"
publish = false

[dependencies]
goblin = "*"
clap = { version = "*", features = ["derive"] }
