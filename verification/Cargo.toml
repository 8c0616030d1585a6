[package]
name = "rust_todo"
version = "0.1.0"
edition = "2021"
publish = false

[dependencies]
home = "0.5"
serde = { version = "1", features = ["derive"] }
serde_json = "1"
clap = { version = "4", features = ["derive"] }
