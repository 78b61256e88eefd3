[package]
name = "git_tui"
version = "0.1.0"
edition = "2021"
publish = false

[dependencies]
crossterm = "0.25"
git2 = "0.19"
tokio = { version = "1", features = ["rt-multi-thread", "macros", "sync"] }
tui = "0.19"
tui-input = "0.6"
