[package]
name = "gpm_pcie_dashboard"
version = "0.1.0"
edition = "2021"
publish = false

[dependencies]
anyhow = "*"
clap = { version = "*", features = ["derive"] }
crossterm = { version = "*", features = ["event-stream"] }
futures = "*"
libloading = "*"
ratatui = "*"
tokio = { version = "*", features = ["full"] }
