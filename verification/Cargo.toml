[package]
name = "toggl_tui"
version = "0.1.0"
edition = "2021"
publish = false

[dependencies]
serde_json = "*"
chrono = "*"
reqwest = { version = "*", default-features = false }
tokio = { version = "*", features = ["rt", "macros"] }
clap = { version = "*", features = ["derive"] }
directories = "*"
