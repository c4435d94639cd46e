[package]
name = "weather_tui"
version = "0.1.0"
edition = "2021"
publish = false

[dependencies]
tinyvec = "1"
rand = { version = "0.8", features = ["small_rng"] }
chrono = "0.4"
anyhow = "1"
clap = { version = "4", features = ["derive"] }
clap-num = "1"
crossterm = { version = "0.27", features = ["event-stream", "serde"] }
futures = "0.3"
ratatui = "0.26"
serde = { version = "1", features = ["derive"] }
tokio = { version = "1", features = ["full"] }
