[package]
name = "iced_table"
version = "0.1.0"
edition = "2021"
publish = false

[dependencies]
iced = { version = "0.14", features = ["advanced", "canvas"] }
