[package]
name = "ratatui_termina"
version = "0.1.0"
edition = "2021"
publish = false

[dependencies]
ratatui-core = { version = "*", features = ["underline-color", "scrolling-regions"] }
termina = "*"
