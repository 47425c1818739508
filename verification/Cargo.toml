[package]
name = "ratatui_bracket_terminal"
version = "0.1.0"
edition = "2021"
publish = false

[dependencies]
bracket-terminal = { version = "=0.8.7", default-features = false, features = ["cross_term"] }
object-pool = "=0.5.4"
ratatui = { version = "=0.29.0", default-features = false }
