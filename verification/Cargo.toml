[package]
name = "meteo_station"
version = "0.1.0"
edition = "2021"
publish = false

[dependencies]
base64 = "0.22"
image = { version = "0.25", default-features = false, features = ["png"] }
ratatui = "*"
crossterm = "*"
tokio = { version = "1", features = ["rt-multi-thread", "macros", "sync", "time"] }
clap = { version = "4", features = ["derive"] }
anyhow = "1"
rusqlite = { version = "*", features = ["bundled"] }
chrono = "0.4"
futures = "0.3"
bluer = { version = "*", features = ["bluetoothd"] }
