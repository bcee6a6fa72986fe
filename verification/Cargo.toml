[package]
name = "bob"
version = "0.1.0"
edition = "2021"
publish = false

[dependencies]
anyhow = "1"
dialoguer = "*"
dunce = "1"
serde = { version = "1", features = ["derive"] }
serde_json = "1"
structopt = "0.3"
