[package]
name = "orivo"
version = "0.1.0"
edition = "2021"
publish = false

[dependencies]
flate2 = { version = "=1.1.10", default-features = false, features = ["zlib"] }
sha2 = "=0.10.9"
time = { version = "=0.3.55", features = ["local-offset", "formatting", "parsing"] }
serde = { version = "=1.0.229", features = ["derive"] }
serde_json = "1"
toml = "=1.1.8"
ratatui = { version = "=0.30.2", features = ["widget-calendar"] }
notify-rust = "=4.18.2"
rodio = "=0.23.0"
