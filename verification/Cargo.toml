[package]
name = "litemon"
version = "0.1.0"
edition = "2021"
publish = false

[dependencies]
clap = { version = "4", features = ["derive"] }
crossterm = "0.27"
nvml-wrapper = "*"
ratatui = "0.26"
sysinfo = "0.29"
thiserror = "1"
wmi = "*"
