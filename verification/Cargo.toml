[package]
name = "todo_cli"
version = "0.1.0"
edition = "2021"
publish = false

[dependencies]
rusqlite = { version = "*", features = ["bundled"] }
clap = "*"
serde = { version = "*", features = ["derive"] }
serde_json = "*"
log = "*"
