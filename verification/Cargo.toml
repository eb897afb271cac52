[package]
name = "dart6ul_gpio"
version = "0.1.0"
edition = "2021"

[dependencies]
embedded-hal = { version = "=0.2.7", features = ["unproven"] }
