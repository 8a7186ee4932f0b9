[package]
name = "qutyemu"
version = "0.1.0"
edition = "2021"
publish = false

[dependencies]
bitvec = "1"
clap = { version = "4", features = ["derive"] }
ihex = "3"
regex = "1"
