[package]
name = "wezterm_gpui"
version = "0.1.0"
edition = "2021"
publish = false

[dependencies]
regex = "=1.13.1"
termwiz = { version = "=0.23.3", default-features = false }
clap = { version = "4", features = ["derive"] }
anyhow = "1"
