[package]
name = "iced_graphs"
version = "0.1.0"
edition = "2021"
publish = false

[dependencies]
iced = { version = "*", default-features = false, features = ["canvas"] }
