[package]
name = "tabletop"
version = "0.1.0"
edition = "2021"
publish = false

[dependencies]
rusqlite = "0.32"
sha2 = "0.10"
hex = "0.4"
anyhow = "1"
clap = { version = "4.5", features = ["derive"] }
