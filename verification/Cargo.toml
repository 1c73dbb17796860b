[package]
name = "gpui_term"
version = "0.1.0"
edition = "2021"
publish = false

[dependencies]
alacritty_terminal = "=0.25.1"
anyhow = "1"
log = "0.4"
libc = "0.2"
russh = "0.54"
tokio = { version = "1", features = ["rt-multi-thread", "sync", "macros"] }
