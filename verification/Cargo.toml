[package]
name = "miz_repacker"
version = "0.1.0"
edition = "2021"
publish = false

[dependencies]
anyhow = "1"
clap = { version = "3", features = ["derive"] }
crossterm = "0.25"
once_cell = "1"
rand = "0.8"
regex = "1"
serde = { version = "1", features = ["derive"] }
toml = "0.5"
walkdir = "2"
zip = { version = "0.6", default-features = false, features = ["deflate"] }
