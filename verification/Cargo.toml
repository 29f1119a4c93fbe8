[package]
name = "blackbird"
version = "0.1.0"
edition = "2021"
publish = false

[dependencies]
ratatui = "*"
crossterm = "*"
unicode-width = "*"
ratatui-image = { version = "*", default-features = false, features = ["crossterm"] }
image = { version = "*", default-features = false, features = ["png", "jpeg"] }
tracing = "*"
tracing-subscriber = { version = "*", features = ["env-filter"] }
serde = { version = "*", features = ["derive"] }
toml = "*"
smallvec = "*"
smol_str = "*"
anyhow = "*"
