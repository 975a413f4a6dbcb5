[package]
name = "tchess"
version = "0.1.0"
edition = "2021"
publish = false

[dependencies]
pleco = "0.5"
serde = { version = "1", features = ["derive"] }
tari_template_lib = "*"
