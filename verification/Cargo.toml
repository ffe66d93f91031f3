[package]
name = "hn_reader"
version = "0.1.0"
edition = "2021"
publish = false

[dependencies]
reqwest = { version = "*", default-features = false, features = ["json"] }
time = { version = "*", features = ["std"] }
rusqlite = { version = "*", features = ["bundled"] }
dirs = "*"
serde = { version = "*", features = ["derive"] }
serde_json = "*"
tokio = { version = "*", features = ["rt-multi-thread"] }
eframe = { version = "*", default-features = false, features = ["glow", "x11", "default_fonts"] }
opener = "*"
