[package]
name = "wincleaner"
version = "0.1.0"
edition = "2021"
publish = false

[dependencies]
chrono = "*"
once_cell = "*"
serde = { version = "*", features = ["derive"] }
tokio = { version = "*", features = ["rt", "rt-multi-thread", "macros"] }
toml = "*"
