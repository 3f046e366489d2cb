[package]
name = "wolrus"
version = "0.1.0"
edition = "2021"
publish = false

[dependencies]
smoltcp = "*"
managed = "*"
clap = { version = "*", features = ["derive"] }
macaddr = "*"
