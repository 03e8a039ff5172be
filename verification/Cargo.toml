[package]
name = "spacetrade"
version = "0.1.0"
edition = "2021"
publish = false

[dependencies]
colored = "*"
rand = "0.9"
rustyline = "*"
serde = { version = "1", features = ["derive"] }
serde_json = "1"
