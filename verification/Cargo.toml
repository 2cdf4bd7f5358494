[package]
name = "mix_calculator"
version = "0.1.0"
edition = "2021"
publish = false

[dependencies]
dioxus = { version = "0.6", features = ["web"] }
dioxus-free-icons = { version = "0.9", features = ["octicons"] }
