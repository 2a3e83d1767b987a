[package]
name = "git_branch_manager"
version = "0.3.0"
edition = "2021"
publish = false

[dependencies]
anyhow = "1"
git2 = { version = "0.20", default-features = false }
crossterm = "0.28"
ratatui = "0.29"
