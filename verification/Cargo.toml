[package]
name = "mikro_bridge"
version = "0.1.0"
edition = "2021"
publish = false

[dependencies]
clap = { version = "4", features = ["derive"] }
config = "*"
hidapi = "*"
midir = "*"
midly = "*"
rosc = "*"
serde = { version = "1", features = ["derive"] }
