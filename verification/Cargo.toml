[package]
name = "cantact"
version = "0.1.0"
edition = "2021"
publish = false

[dependencies]
clap = "2"
crossbeam-channel = "0.5"
serde = { version = "1", features = ["derive"] }
