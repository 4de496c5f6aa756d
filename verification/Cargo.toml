[package]
name = "rustmergency"
version = "0.1.0"
edition = "2021"
publish = false

[dependencies]
percent-encoding = "2"
serde = { version = "1", features = ["derive"] }
toml = "*"
clap = "2"
reqwest = { version = "*", default-features = false, features = ["blocking"] }
