[package]
name = "ipfetch"
version = "0.1.0"
edition = "2021"

[dependencies]
clap = { version = "3", features = ["derive"] }
reqwest = { version = "*", features = ["blocking"] }
seeip = "*"
tabled = "*"
