[package]
name = "swarmy"
version = "0.1.0"
edition = "2021"
publish = false

[dependencies]
s2protocol = "*"
nom-mpq = "*"
clap = { version = "*", features = ["derive"] }
