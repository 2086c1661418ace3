[package]
name = "galaxy_nav"
version = "0.1.0"
edition = "2021"
publish = false

[dependencies]
num-traits = "0.2"
ratatui = "*"
tachyonfx = "*"
throbber-widgets-tui = "*"
serde = { version = "1", features = ["derive"] }
serde_json = "1"
color-eyre = "*"
