[package]
name = "oreally"
version = "0.1.0"
edition = "2021"
publish = false

[dependencies]
rusqlite = { version = "*", features = ["bundled"] }
dirs = "*"
tokio = { version = "*", features = ["fs", "rt"] }
clap = { version = "*", features = ["derive"] }
prettytable-rs = "*"

[dev-dependencies]
uuid = { version = "*", features = ["v4"] }
