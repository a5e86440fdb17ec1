[package]
name = "git_loom"
version = "0.1.0"
edition = "2021"
publish = false

[dependencies]
anyhow = "=1.0.104"
chrono = { version = "=0.4.45", default-features = false, features = ["alloc"] }
clap = { version = "=4.6.7", features = ["derive"] }
colored = "=3.1.1"
git2 = { version = "=0.21.0", default-features = false }
inquire = "=0.9.4"
terminal-colorsaurus = "*"
terminal_size = "=0.4.4"
