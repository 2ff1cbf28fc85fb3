[package]
name = "lazypueue"
version = "0.1.0"
edition = "2021"
publish = false

[dependencies]
anyhow = "1"
chrono = "0.4"
clap = { version = "4", features = ["derive"] }
crossterm = "*"
pueue-lib = "*"
ratatui = "*"
tokio = { version = "1", features = ["full"] }
