[package]
name = "rcargo"
version = "0.1.0"
edition = "2021"
publish = false

[dependencies]
clap = { version = "4", features = ["derive"] }
md5 = "*"
serde = { version = "1", features = ["derive"] }
toml = "*"
