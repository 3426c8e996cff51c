[package]
name = "strafe"
version = "0.1.0"
edition = "2021"
publish = false

[dependencies]
colored = "=3.1.1"
vault = { version = "=11.0.1", features = ["raw"] }
anyhow = "=1.0.104"
clap = { version = "=4.6.7", features = ["derive"] }
inquire = "=0.9.4"
