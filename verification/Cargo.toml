[package]
name = "omarchyiso"
version = "0.1.0"
edition = "2021"
publish = false

[dependencies]
anyhow = "1"
crossterm = "0.28"
dirs = "5"
futures = "0.3"
ratatui = "0.29"
tokio = { version = "1", features = ["full"] }
