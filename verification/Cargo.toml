[package]
name = "neviraller"
version = "0.1.0"
edition = "2021"
publish = false

[dependencies]
clap = { version = "4", features = ["derive"] }
color-eyre = "0.6"
crossterm = "0.27"
log = "0.4"
ratatui = "0.26"
reqwest = "0.12"
scraper = "0.19"
serde = { version = "1", features = ["derive"] }
strum = { version = "0.26", features = ["derive"] }
tokio = { version = "1", features = ["full"] }
