[package]
name = "todo_app"
version = "0.1.0"
edition = "2021"
publish = false

[dependencies]
rusqlite = { version = "*", features = ["bundled"] }
time = { version = "*", features = ["local-offset"] }
clap = { version = "*", features = ["derive"] }
