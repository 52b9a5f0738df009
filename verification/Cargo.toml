[package]
name = "gram"
version = "0.1.0"
edition = "2021"
publish = false

[dependencies]
toml = "=1.1.8"
serde = { version = "=1.0.229", features = ["derive"] }
clap = { version = "=4.6.7", features = ["derive"] }
rustyline = "=19.0.0"
color-print = "=0.3.7"
directories = "=6.0.0"
notify = "=8.2.1"
notify-rust = "=4.18.2"
parking_lot = "=0.13.0"
tabled = "=0.22.0"
terminal_size = "=0.4.4"
chrono = "=0.4.45"
serde_json = "*"
ron = "*"
